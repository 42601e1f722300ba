//! The provider's records, field for field as its JSON names them. Every
//! field that the provider may leave out is an `Option`.

#![allow(non_snake_case)]

use crate::handicap::{text_of, views, FloatBits};
use vstd::prelude::*;

verus! {

/// One row of a golfer search: one golfer at one club. Several rows may
/// describe the same person at different clubs. Any field may be absent.
#[derive(Clone, Debug, PartialEq, Eq)]
pub struct Golfer {
    pub ghin: Option<String>,
    pub prefix: Option<String>,
    pub first_name: Option<String>,
    pub middle_name: Option<String>,
    pub last_name: Option<String>,
    pub suffix: Option<String>,
    pub handicap_index: Option<String>,
    pub gender: Option<String>,
    pub rev_date: Option<String>,
    pub club_id: Option<i32>,
    pub club_name: Option<String>,
    pub club_affiliation_id: Option<i32>,
    pub state: Option<String>,
    pub country: Option<String>,
}

/// A `Golfer` as specifications see it.
pub struct GolferView {
    pub ghin: Option<Seq<char>>,
    pub prefix: Option<Seq<char>>,
    pub first_name: Option<Seq<char>>,
    pub middle_name: Option<Seq<char>>,
    pub last_name: Option<Seq<char>>,
    pub suffix: Option<Seq<char>>,
    pub handicap_index: Option<Seq<char>>,
    pub gender: Option<Seq<char>>,
    pub rev_date: Option<Seq<char>>,
    pub club_id: Option<i32>,
    pub club_name: Option<Seq<char>>,
    pub club_affiliation_id: Option<i32>,
    pub state: Option<Seq<char>>,
    pub country: Option<Seq<char>>,
}

impl View for Golfer {
    type V = GolferView;

    open spec fn view(&self) -> GolferView {
        GolferView {
            ghin: text_of(self.ghin),
            prefix: text_of(self.prefix),
            first_name: text_of(self.first_name),
            middle_name: text_of(self.middle_name),
            last_name: text_of(self.last_name),
            suffix: text_of(self.suffix),
            handicap_index: text_of(self.handicap_index),
            gender: text_of(self.gender),
            rev_date: text_of(self.rev_date),
            club_id: self.club_id,
            club_name: text_of(self.club_name),
            club_affiliation_id: self.club_affiliation_id,
            state: text_of(self.state),
            country: text_of(self.country),
        }
    }
}

/// One hole, as the provider describes it.
#[derive(Clone, Debug, PartialEq, Eq)]
pub struct HoleResponse {
    pub Number: Option<i32>,
    pub HoleId: Option<i32>,
    pub Length: Option<i32>,
    pub Par: Option<i32>,
    pub Allocation: Option<i32>,
}

/// A `HoleResponse` as specifications see it.
pub struct HoleResponseView {
    pub Number: Option<i32>,
    pub HoleId: Option<i32>,
    pub Length: Option<i32>,
    pub Par: Option<i32>,
    pub Allocation: Option<i32>,
}

impl View for HoleResponse {
    type V = HoleResponseView;

    open spec fn view(&self) -> HoleResponseView {
        HoleResponseView {
            Number: self.Number,
            HoleId: self.HoleId,
            Length: self.Length,
            Par: self.Par,
            Allocation: self.Allocation,
        }
    }
}

/// One line of a rating table, as the provider describes it.
#[derive(Clone, Debug, PartialEq, Eq)]
pub struct RatingResponse {
    pub RatingType: Option<String>,
    pub CourseRating: Option<FloatBits>,
    pub SlopeRating: Option<FloatBits>,
    pub BogeyRating: Option<FloatBits>,
}

/// A `RatingResponse` as specifications see it.
pub struct RatingResponseView {
    pub RatingType: Option<Seq<char>>,
    pub CourseRating: Option<FloatBits>,
    pub SlopeRating: Option<FloatBits>,
    pub BogeyRating: Option<FloatBits>,
}

impl View for RatingResponse {
    type V = RatingResponseView;

    open spec fn view(&self) -> RatingResponseView {
        RatingResponseView {
            RatingType: text_of(self.RatingType),
            CourseRating: self.CourseRating,
            SlopeRating: self.SlopeRating,
            BogeyRating: self.BogeyRating,
        }
    }
}

/// One tee set, as the provider describes it.
#[derive(Clone, Debug, PartialEq, Eq)]
pub struct TeeResponse {
    pub TeeSetRatingID: Option<i32>,
    pub TeeSetRatingName: Option<String>,
    pub Gender: Option<String>,
    pub HolesNumber: Option<i32>,
    pub TotalYardage: Option<i32>,
    pub TotalMeters: Option<i32>,
    pub TotalPar: Option<i32>,
    pub Ratings: Vec<RatingResponse>,
    pub Holes: Vec<HoleResponse>,
}

/// A `TeeResponse` as specifications see it.
pub struct TeeResponseView {
    pub TeeSetRatingID: Option<i32>,
    pub TeeSetRatingName: Option<Seq<char>>,
    pub Gender: Option<Seq<char>>,
    pub HolesNumber: Option<i32>,
    pub TotalYardage: Option<i32>,
    pub TotalMeters: Option<i32>,
    pub TotalPar: Option<i32>,
    pub Ratings: Seq<RatingResponseView>,
    pub Holes: Seq<HoleResponseView>,
}

impl View for TeeResponse {
    type V = TeeResponseView;

    open spec fn view(&self) -> TeeResponseView {
        TeeResponseView {
            TeeSetRatingID: self.TeeSetRatingID,
            TeeSetRatingName: text_of(self.TeeSetRatingName),
            Gender: text_of(self.Gender),
            HolesNumber: self.HolesNumber,
            TotalYardage: self.TotalYardage,
            TotalMeters: self.TotalMeters,
            TotalPar: self.TotalPar,
            Ratings: views(self.Ratings@),
            Holes: views(self.Holes@),
        }
    }
}

/// The facility that a course belongs to.
#[derive(Clone, Debug, PartialEq, Eq)]
pub struct FacilityResp {
    pub FacilityId: Option<i32>,
    pub FacilityStatus: Option<String>,
    pub FacilityName: Option<String>,
    pub GeoLocationFormattedAddress: Option<String>,
    pub GeoLocationLatitude: Option<FloatBits>,
    pub GeoLocationLongitude: Option<FloatBits>,
}

/// A `FacilityResp` as specifications see it.
pub struct FacilityRespView {
    pub FacilityId: Option<i32>,
    pub FacilityStatus: Option<Seq<char>>,
    pub FacilityName: Option<Seq<char>>,
    pub GeoLocationFormattedAddress: Option<Seq<char>>,
    pub GeoLocationLatitude: Option<FloatBits>,
    pub GeoLocationLongitude: Option<FloatBits>,
}

impl View for FacilityResp {
    type V = FacilityRespView;

    open spec fn view(&self) -> FacilityRespView {
        FacilityRespView {
            FacilityId: self.FacilityId,
            FacilityStatus: text_of(self.FacilityStatus),
            FacilityName: text_of(self.FacilityName),
            GeoLocationFormattedAddress: text_of(self.GeoLocationFormattedAddress),
            GeoLocationLatitude: self.GeoLocationLatitude,
            GeoLocationLongitude: self.GeoLocationLongitude,
        }
    }
}

/// The playing season of a course.
#[derive(Clone, Debug, PartialEq, Eq)]
pub struct SeasonResp {
    pub SeasonName: Option<String>,
    pub SeasonStartDate: Option<String>,
    pub SeasonEndDate: Option<String>,
    pub IsAllYear: Option<bool>,
}

/// A `SeasonResp` as specifications see it.
pub struct SeasonRespView {
    pub SeasonName: Option<Seq<char>>,
    pub SeasonStartDate: Option<Seq<char>>,
    pub SeasonEndDate: Option<Seq<char>>,
    pub IsAllYear: Option<bool>,
}

impl View for SeasonResp {
    type V = SeasonRespView;

    open spec fn view(&self) -> SeasonRespView {
        SeasonRespView {
            SeasonName: text_of(self.SeasonName),
            SeasonStartDate: text_of(self.SeasonStartDate),
            SeasonEndDate: text_of(self.SeasonEndDate),
            IsAllYear: self.IsAllYear,
        }
    }
}

/// One course, as the course lookup describes it. Here the id of the course
/// is called `CourseId` and the facility stands in a record of its own.
#[derive(Clone, Debug, PartialEq, Eq)]
pub struct GetCourseResp {
    pub CourseId: Option<i32>,
    pub CourseStatus: Option<String>,
    pub CourseName: Option<String>,
    pub CourseCity: Option<String>,
    pub CourseState: Option<String>,
    pub Facility: FacilityResp,
    pub Season: SeasonResp,
    pub TeeSets: Vec<TeeResponse>,
}

/// A `GetCourseResp` as specifications see it.
pub struct GetCourseRespView {
    pub CourseId: Option<i32>,
    pub CourseStatus: Option<Seq<char>>,
    pub CourseName: Option<Seq<char>>,
    pub CourseCity: Option<Seq<char>>,
    pub CourseState: Option<Seq<char>>,
    pub Facility: FacilityRespView,
    pub Season: SeasonRespView,
    pub TeeSets: Seq<TeeResponseView>,
}

impl View for GetCourseResp {
    type V = GetCourseRespView;

    open spec fn view(&self) -> GetCourseRespView {
        GetCourseRespView {
            CourseId: self.CourseId,
            CourseStatus: text_of(self.CourseStatus),
            CourseName: text_of(self.CourseName),
            CourseCity: text_of(self.CourseCity),
            CourseState: text_of(self.CourseState),
            Facility: self.Facility@,
            Season: self.Season@,
            TeeSets: views(self.TeeSets@),
        }
    }
}

/// One course, as the course search describes it. Here the id of the course
/// is called `CourseID`, and the facility's fields lie beside the course's own.
#[derive(Clone, Debug, PartialEq, Eq)]
pub struct CourseResponse {
    pub CourseID: Option<i32>,
    pub CourseStatus: Option<String>,
    pub CourseName: Option<String>,
    pub GeoLocationLatitude: Option<FloatBits>,
    pub GeoLocationLongitude: Option<FloatBits>,
    pub FacilityID: Option<i32>,
    pub FacilityStatus: Option<String>,
    pub FacilityName: Option<String>,
    pub FullName: Option<String>,
    pub Address1: Option<String>,
    pub Address2: Option<String>,
    pub City: Option<String>,
    pub State: Option<String>,
    pub Country: Option<String>,
    pub UpdatedOn: Option<String>,
}

/// A `CourseResponse` as specifications see it.
pub struct CourseResponseView {
    pub CourseID: Option<i32>,
    pub CourseStatus: Option<Seq<char>>,
    pub CourseName: Option<Seq<char>>,
    pub GeoLocationLatitude: Option<FloatBits>,
    pub GeoLocationLongitude: Option<FloatBits>,
    pub FacilityID: Option<i32>,
    pub FacilityStatus: Option<Seq<char>>,
    pub FacilityName: Option<Seq<char>>,
    pub FullName: Option<Seq<char>>,
    pub Address1: Option<Seq<char>>,
    pub Address2: Option<Seq<char>>,
    pub City: Option<Seq<char>>,
    pub State: Option<Seq<char>>,
    pub Country: Option<Seq<char>>,
    pub UpdatedOn: Option<Seq<char>>,
}

impl View for CourseResponse {
    type V = CourseResponseView;

    open spec fn view(&self) -> CourseResponseView {
        CourseResponseView {
            CourseID: self.CourseID,
            CourseStatus: text_of(self.CourseStatus),
            CourseName: text_of(self.CourseName),
            GeoLocationLatitude: self.GeoLocationLatitude,
            GeoLocationLongitude: self.GeoLocationLongitude,
            FacilityID: self.FacilityID,
            FacilityStatus: text_of(self.FacilityStatus),
            FacilityName: text_of(self.FacilityName),
            FullName: text_of(self.FullName),
            Address1: text_of(self.Address1),
            Address2: text_of(self.Address2),
            City: text_of(self.City),
            State: text_of(self.State),
            Country: text_of(self.Country),
            UpdatedOn: text_of(self.UpdatedOn),
        }
    }
}

/// The body of a golfer search.
#[derive(Clone, Debug, PartialEq, Eq)]
pub struct GolfersResponse {
    pub golfers: Vec<Golfer>,
}

/// A `GolfersResponse` as specifications see it.
pub struct GolfersResponseView {
    pub golfers: Seq<GolferView>,
}

impl View for GolfersResponse {
    type V = GolfersResponseView;

    open spec fn view(&self) -> GolfersResponseView {
        GolfersResponseView {
            golfers: views(self.golfers@),
        }
    }
}

/// The body of a course search.
#[derive(Clone, Debug, PartialEq, Eq)]
pub struct CoursesResponse {
    pub courses: Vec<CourseResponse>,
}

/// A `CoursesResponse` as specifications see it.
pub struct CoursesResponseView {
    pub courses: Seq<CourseResponseView>,
}

impl View for CoursesResponse {
    type V = CoursesResponseView;

    open spec fn view(&self) -> CoursesResponseView {
        CoursesResponseView {
            courses: views(self.courses@),
        }
    }
}

/// The body of a tee set lookup.
#[derive(Clone, Debug, PartialEq, Eq)]
pub struct TeesResponse {
    pub TeeSets: Vec<TeeResponse>,
}

/// A `TeesResponse` as specifications see it.
pub struct TeesResponseView {
    pub TeeSets: Seq<TeeResponseView>,
}

impl View for TeesResponse {
    type V = TeesResponseView;

    open spec fn view(&self) -> TeesResponseView {
        TeesResponseView {
            TeeSets: views(self.TeeSets@),
        }
    }
}

/// The body of a successful login: the session token.
#[derive(Clone, Debug, PartialEq, Eq)]
pub struct LoginResponse {
    pub token: String,
}

/// A `LoginResponse` as specifications see it.
pub struct LoginResponseView {
    pub token: Seq<char>,
}

impl View for LoginResponse {
    type V = LoginResponseView;

    open spec fn view(&self) -> LoginResponseView {
        LoginResponseView {
            token: self.token@,
        }
    }
}

/// The body of a granted product access request.
#[derive(Clone, Debug, PartialEq, Eq)]
pub struct GpaPostResponse {
    pub success: String,
}

/// A `GpaPostResponse` as specifications see it.
pub struct GpaPostResponseView {
    pub success: Seq<char>,
}

impl View for GpaPostResponse {
    type V = GpaPostResponseView;

    open spec fn view(&self) -> GpaPostResponseView {
        GpaPostResponseView {
            success: self.success@,
        }
    }
}

/// The account that logs in.
#[derive(Clone, Debug, PartialEq, Eq)]
pub struct User {
    pub email: String,
    pub password: String,
    pub remember_me: bool,
}

/// An `User` as specifications see it.
pub struct UserView {
    pub email: Seq<char>,
    pub password: Seq<char>,
    pub remember_me: bool,
}

impl View for User {
    type V = UserView;

    open spec fn view(&self) -> UserView {
        UserView {
            email: self.email@,
            password: self.password@,
            remember_me: self.remember_me,
        }
    }
}

/// The body of a login request.
#[derive(Clone, Debug, PartialEq, Eq)]
pub struct LoginPayload {
    pub user: User,
}

/// A `LoginPayload` as specifications see it.
pub struct LoginPayloadView {
    pub user: UserView,
}

impl View for LoginPayload {
    type V = LoginPayloadView;

    open spec fn view(&self) -> LoginPayloadView {
        LoginPayloadView {
            user: self.user@,
        }
    }
}

/// The body of a product access request.
#[derive(Clone, Debug, PartialEq, Eq)]
pub struct GpaPayload {
    pub email: String,
}

/// A `GpaPayload` as specifications see it.
pub struct GpaPayloadView {
    pub email: Seq<char>,
}

impl View for GpaPayload {
    type V = GpaPayloadView;

    open spec fn view(&self) -> GpaPayloadView {
        GpaPayloadView {
            email: self.email@,
        }
    }
}

} // verus!
