//! The records that callers see: players with their clubs, courses with their
//! tee sets, and the queries that ask for them.

use vstd::prelude::*;

verus! {

/// The views of the items of a sequence, in the same order.
pub open spec fn views<T: View>(s: Seq<T>) -> Seq<T::V> {
    Seq::new(s.len(), |i: int| s[i]@)
}

/// The text of an optional string, where there is one.
pub open spec fn text_of(o: Option<String>) -> Option<Seq<char>> {
    match o {
        Some(s) => Some(s@),
        None => None,
    }
}

/// A single-precision number, carried by its IEEE 754 bit pattern. The
/// library never computes with such a number: it passes it on, or puts zero
/// in its place.
#[derive(Clone, Copy, Debug, PartialEq, Eq)]
pub struct FloatBits {
    pub bits: u32,
}

impl FloatBits {
    /// Positive zero, whose bit pattern is all zeros.
    pub open spec fn zero() -> FloatBits {
        FloatBits { bits: 0 }
    }
}

/// One club membership of a player.
#[derive(Clone, Debug, PartialEq, Eq)]
pub struct Club {
    pub id: String,
    pub name: String,
    pub assn: String,
    pub state: String,
    pub country: String,
}

/// A `Club` as specifications see it.
pub struct ClubView {
    pub id: Seq<char>,
    pub name: Seq<char>,
    pub assn: Seq<char>,
    pub state: Seq<char>,
    pub country: Seq<char>,
}

impl View for Club {
    type V = ClubView;

    open spec fn view(&self) -> ClubView {
        ClubView {
            id: self.id@,
            name: self.name@,
            assn: self.assn@,
            state: self.state@,
            country: self.country@,
        }
    }
}

/// One person, with every club membership that was found.
#[derive(Clone, Debug, PartialEq, Eq)]
pub struct GetHandicapResponse {
    pub id: String,
    pub source: String,
    pub prefix: String,
    pub first_name: String,
    pub middle_name: String,
    pub last_name: String,
    pub suffix: String,
    pub player_name: String,
    pub gender: String,
    pub active: bool,
    pub index: String,
    pub rev_date: String,
    pub clubs: Vec<Club>,
}

/// A `GetHandicapResponse` as specifications see it.
pub struct GetHandicapResponseView {
    pub id: Seq<char>,
    pub source: Seq<char>,
    pub prefix: Seq<char>,
    pub first_name: Seq<char>,
    pub middle_name: Seq<char>,
    pub last_name: Seq<char>,
    pub suffix: Seq<char>,
    pub player_name: Seq<char>,
    pub gender: Seq<char>,
    pub active: bool,
    pub index: Seq<char>,
    pub rev_date: Seq<char>,
    pub clubs: Seq<ClubView>,
}

impl View for GetHandicapResponse {
    type V = GetHandicapResponseView;

    open spec fn view(&self) -> GetHandicapResponseView {
        GetHandicapResponseView {
            id: self.id@,
            source: self.source@,
            prefix: self.prefix@,
            first_name: self.first_name@,
            middle_name: self.middle_name@,
            last_name: self.last_name@,
            suffix: self.suffix@,
            player_name: self.player_name@,
            gender: self.gender@,
            active: self.active,
            index: self.index@,
            rev_date: self.rev_date@,
            clubs: views(self.clubs@),
        }
    }
}

/// The answer to a player search.
#[derive(Clone, Debug, PartialEq, Eq)]
pub struct SearchPlayerResponse {
    pub players: Vec<GetHandicapResponse>,
}

/// A `SearchPlayerResponse` as specifications see it.
pub struct SearchPlayerResponseView {
    pub players: Seq<GetHandicapResponseView>,
}

impl View for SearchPlayerResponse {
    type V = SearchPlayerResponseView;

    open spec fn view(&self) -> SearchPlayerResponseView {
        SearchPlayerResponseView { players: views(self.players@) }
    }
}

/// Which page of a search is wanted, and how many rows a page holds.
#[derive(Clone, Debug, PartialEq, Eq)]
pub struct Pagination {
    pub page: i32,
    pub per_page: i32,
}

/// A `Pagination` as specifications see it.
pub struct PaginationView {
    pub page: i32,
    pub per_page: i32,
}

impl View for Pagination {
    type V = PaginationView;

    open spec fn view(&self) -> PaginationView {
        PaginationView {
            page: self.page,
            per_page: self.per_page,
        }
    }
}

/// A player search. With a golfer id it is scoped to that one person;
/// without one it is a general search by name and place.
#[derive(Clone, Debug, PartialEq, Eq)]
pub struct SearchPlayer {
    /// The provider that is asked.
    pub source: String,
    pub golfer_id: String,
    pub country: String,
    pub state: String,
    pub last_name: String,
    pub first_name: String,
    pub email: String,
}

/// A `SearchPlayer` as specifications see it.
pub struct SearchPlayerView {
    pub source: Seq<char>,
    pub golfer_id: Seq<char>,
    pub country: Seq<char>,
    pub state: Seq<char>,
    pub last_name: Seq<char>,
    pub first_name: Seq<char>,
    pub email: Seq<char>,
}

impl View for SearchPlayer {
    type V = SearchPlayerView;

    open spec fn view(&self) -> SearchPlayerView {
        SearchPlayerView {
            source: self.source@,
            golfer_id: self.golfer_id@,
            country: self.country@,
            state: self.state@,
            last_name: self.last_name@,
            first_name: self.first_name@,
            email: self.email@,
        }
    }
}

/// A request for one course by its id.
#[derive(Clone, Debug, PartialEq, Eq)]
pub struct GetCourse {
    pub course_id: i32,
    pub include_altered_tees: bool,
}

/// A `GetCourse` as specifications see it.
pub struct GetCourseView {
    pub course_id: i32,
    pub include_altered_tees: bool,
}

impl View for GetCourse {
    type V = GetCourseView;

    open spec fn view(&self) -> GetCourseView {
        GetCourseView {
            course_id: self.course_id,
            include_altered_tees: self.include_altered_tees,
        }
    }
}

/// A course search by name and place.
#[derive(Clone, Debug, PartialEq, Eq)]
pub struct SearchCourse {
    pub course_name: String,
    pub country: String,
    pub state: String,
}

/// A `SearchCourse` as specifications see it.
pub struct SearchCourseView {
    pub course_name: Seq<char>,
    pub country: Seq<char>,
    pub state: Seq<char>,
}

impl View for SearchCourse {
    type V = SearchCourseView;

    open spec fn view(&self) -> SearchCourseView {
        SearchCourseView {
            course_name: self.course_name@,
            country: self.country@,
            state: self.state@,
        }
    }
}

/// A request for the tee sets of one course.
#[derive(Clone, Debug, PartialEq, Eq)]
pub struct SearchTee {
    pub course_id: i32,
    pub gender: String,
    pub number_of_holes: i32,
    pub tee_set_status: String,
}

/// A `SearchTee` as specifications see it.
pub struct SearchTeeView {
    pub course_id: i32,
    pub gender: Seq<char>,
    pub number_of_holes: i32,
    pub tee_set_status: Seq<char>,
}

impl View for SearchTee {
    type V = SearchTeeView;

    open spec fn view(&self) -> SearchTeeView {
        SearchTeeView {
            course_id: self.course_id,
            gender: self.gender@,
            number_of_holes: self.number_of_holes,
            tee_set_status: self.tee_set_status@,
        }
    }
}

/// One hole of a tee set: its length, par and handicap allocation.
#[derive(Clone, Debug, PartialEq, Eq)]
pub struct Hole {
    pub number: i32,
    pub hole_id: i32,
    pub length: i32,
    pub par: i32,
    pub allocation: i32,
}

/// A `Hole` as specifications see it.
pub struct HoleView {
    pub number: i32,
    pub hole_id: i32,
    pub length: i32,
    pub par: i32,
    pub allocation: i32,
}

impl View for Hole {
    type V = HoleView;

    open spec fn view(&self) -> HoleView {
        HoleView {
            number: self.number,
            hole_id: self.hole_id,
            length: self.length,
            par: self.par,
            allocation: self.allocation,
        }
    }
}

/// One line of the rating table of a tee set.
#[derive(Clone, Debug, PartialEq, Eq)]
pub struct Rating {
    pub rating_type: String,
    pub course_rating: FloatBits,
    pub slope_rating: FloatBits,
    pub bogey_rating: FloatBits,
}

/// A `Rating` as specifications see it.
pub struct RatingView {
    pub rating_type: Seq<char>,
    pub course_rating: FloatBits,
    pub slope_rating: FloatBits,
    pub bogey_rating: FloatBits,
}

impl View for Rating {
    type V = RatingView;

    open spec fn view(&self) -> RatingView {
        RatingView {
            rating_type: self.rating_type@,
            course_rating: self.course_rating,
            slope_rating: self.slope_rating,
            bogey_rating: self.bogey_rating,
        }
    }
}

/// A tee set. It owns its ratings and its holes.
#[derive(Clone, Debug, PartialEq, Eq)]
pub struct Tee {
    pub tee_id: i32,
    pub tee_name: String,
    pub gender: String,
    pub holes_number: i32,
    pub total_yardage: i32,
    pub total_meters: i32,
    pub total_par: i32,
    pub ratings: Vec<Rating>,
    pub holes: Vec<Hole>,
}

/// A `Tee` as specifications see it.
pub struct TeeView {
    pub tee_id: i32,
    pub tee_name: Seq<char>,
    pub gender: Seq<char>,
    pub holes_number: i32,
    pub total_yardage: i32,
    pub total_meters: i32,
    pub total_par: i32,
    pub ratings: Seq<RatingView>,
    pub holes: Seq<HoleView>,
}

impl View for Tee {
    type V = TeeView;

    open spec fn view(&self) -> TeeView {
        TeeView {
            tee_id: self.tee_id,
            tee_name: self.tee_name@,
            gender: self.gender@,
            holes_number: self.holes_number,
            total_yardage: self.total_yardage,
            total_meters: self.total_meters,
            total_par: self.total_par,
            ratings: views(self.ratings@),
            holes: views(self.holes@),
        }
    }
}

/// A golf course. It owns its tee sets. A field that the answering endpoint
/// does not know of is `None`.
#[derive(Clone, Debug, PartialEq, Eq)]
pub struct Course {
    pub course_id: i32,
    pub course_status: String,
    pub course_name: String,
    pub facility_id: i32,
    pub facility_status: String,
    pub facility_name: String,
    pub geo_location_formatted_address: Option<String>,
    pub geo_location_latitude: FloatBits,
    pub geo_location_longitude: FloatBits,
    pub city: Option<String>,
    pub state: Option<String>,
    pub season_name: Option<String>,
    pub season_start_date: Option<String>,
    pub season_end_date: Option<String>,
    pub is_all_year: Option<bool>,
    pub address1: Option<String>,
    pub address2: Option<String>,
    pub country: Option<String>,
    pub fullname: Option<String>,
    pub updated_on: Option<String>,
    pub tees: Vec<Tee>,
}

/// A `Course` as specifications see it.
pub struct CourseView {
    pub course_id: i32,
    pub course_status: Seq<char>,
    pub course_name: Seq<char>,
    pub facility_id: i32,
    pub facility_status: Seq<char>,
    pub facility_name: Seq<char>,
    pub geo_location_formatted_address: Option<Seq<char>>,
    pub geo_location_latitude: FloatBits,
    pub geo_location_longitude: FloatBits,
    pub city: Option<Seq<char>>,
    pub state: Option<Seq<char>>,
    pub season_name: Option<Seq<char>>,
    pub season_start_date: Option<Seq<char>>,
    pub season_end_date: Option<Seq<char>>,
    pub is_all_year: Option<bool>,
    pub address1: Option<Seq<char>>,
    pub address2: Option<Seq<char>>,
    pub country: Option<Seq<char>>,
    pub fullname: Option<Seq<char>>,
    pub updated_on: Option<Seq<char>>,
    pub tees: Seq<TeeView>,
}

impl View for Course {
    type V = CourseView;

    open spec fn view(&self) -> CourseView {
        CourseView {
            course_id: self.course_id,
            course_status: self.course_status@,
            course_name: self.course_name@,
            facility_id: self.facility_id,
            facility_status: self.facility_status@,
            facility_name: self.facility_name@,
            geo_location_formatted_address: text_of(self.geo_location_formatted_address),
            geo_location_latitude: self.geo_location_latitude,
            geo_location_longitude: self.geo_location_longitude,
            city: text_of(self.city),
            state: text_of(self.state),
            season_name: text_of(self.season_name),
            season_start_date: text_of(self.season_start_date),
            season_end_date: text_of(self.season_end_date),
            is_all_year: self.is_all_year,
            address1: text_of(self.address1),
            address2: text_of(self.address2),
            country: text_of(self.country),
            fullname: text_of(self.fullname),
            updated_on: text_of(self.updated_on),
            tees: views(self.tees@),
        }
    }
}

/// The answer to a course search.
#[derive(Clone, Debug, PartialEq, Eq)]
pub struct SearchCourseResponse {
    pub courses: Vec<Course>,
}

/// A `SearchCourseResponse` as specifications see it.
pub struct SearchCourseResponseView {
    pub courses: Seq<CourseView>,
}

impl View for SearchCourseResponse {
    type V = SearchCourseResponseView;

    open spec fn view(&self) -> SearchCourseResponseView {
        SearchCourseResponseView {
            courses: views(self.courses@),
        }
    }
}

/// The answer to a request for tee sets.
#[derive(Clone, Debug, PartialEq, Eq)]
pub struct GetTeesResponse {
    pub tees: Vec<Tee>,
}

/// A `GetTeesResponse` as specifications see it.
pub struct GetTeesResponseView {
    pub tees: Seq<TeeView>,
}

impl View for GetTeesResponse {
    type V = GetTeesResponseView;

    open spec fn view(&self) -> GetTeesResponseView {
        GetTeesResponseView {
            tees: views(self.tees@),
        }
    }
}

/// The answer to a request for product access.
#[derive(Clone, Debug, PartialEq, Eq)]
pub struct GpaResponse {
    pub success: String,
}

/// A `GpaResponse` as specifications see it.
pub struct GpaResponseView {
    pub success: Seq<char>,
}

impl View for GpaResponse {
    type V = GpaResponseView;

    open spec fn view(&self) -> GpaResponseView {
        GpaResponseView {
            success: self.success@,
        }
    }
}

} // verus!
