//! From the provider's records to the records that callers see.
//!
//! Nothing here fails on a field that the provider left out: an absent text
//! becomes the empty string, an absent number zero, an absent truth value
//! `false`. The one failure is a search for a single golfer that found no row.

use crate::error::{Error, ErrorView};
use crate::handicap::{
    text_of, views, Club, ClubView, Course, CourseView, FloatBits, GetHandicapResponse,
    GetHandicapResponseView, GetTeesResponse, GetTeesResponseView, GpaResponse, GpaResponseView,
    Hole, HoleView, Rating, RatingView, SearchCourseResponse, SearchCourseResponseView,
    SearchPlayer, SearchPlayerResponse, SearchPlayerResponseView, SearchPlayerView, Tee, TeeView,
};
use crate::text::{decimal, decimal_of_zero, decimal_string};
use crate::upstream::{
    CourseResponse, CourseResponseView, GetCourseResp, GetCourseRespView, Golfer, GolferView,
    GpaPostResponse, HoleResponse, HoleResponseView, RatingResponse, RatingResponseView,
    TeeResponse, TeeResponseView,
};
use vstd::prelude::*;
use vstd::string::*;

verus! {

/// The text of a field, or the empty string where the field is absent.
pub open spec fn text_or_empty(f: Option<Seq<char>>) -> Seq<char> {
    match f {
        Some(s) => s,
        None => Seq::empty(),
    }
}

/// The number in a field, or zero where the field is absent.
pub open spec fn int_or_zero(f: Option<i32>) -> i32 {
    match f {
        Some(n) => n,
        None => 0,
    }
}

/// The number in a field, or positive zero where the field is absent.
pub open spec fn float_or_zero(f: Option<FloatBits>) -> FloatBits {
    match f {
        Some(x) => x,
        None => FloatBits::zero(),
    }
}

/// The truth value in a field, or `false` where the field is absent.
pub open spec fn bool_or_false(f: Option<bool>) -> bool {
    match f {
        Some(b) => b,
        None => false,
    }
}

/// The view of a result: that of the value, or that of the error.
pub open spec fn outcome_view<T: View>(r: Result<T, Error>) -> Result<T::V, ErrorView> {
    match r {
        Ok(t) => Ok(t@),
        Err(e) => Err(e@),
    }
}

pub fn get_str(f: &Option<String>) -> (r: String)
    ensures
        r@ == text_or_empty(text_of(*f)),
{
    match f {
        Some(s) => s.clone(),
        None => String::new(),
    }
}

pub fn get_i32(f: &Option<i32>) -> (r: i32)
    ensures
        r == int_or_zero(*f),
{
    match f {
        Some(n) => *n,
        None => 0,
    }
}

pub fn get_f32(f: &Option<FloatBits>) -> (r: FloatBits)
    ensures
        r == float_or_zero(*f),
{
    match f {
        Some(x) => *x,
        None => FloatBits { bits: 0 },
    }
}

pub fn get_bool(f: &Option<bool>) -> (r: bool)
    ensures
        r == bool_or_false(*f),
{
    match f {
        Some(b) => *b,
        None => false,
    }
}

/// The number in a field, written in decimal; `0` where the field is absent.
pub fn get_int_to_str(f: &Option<i32>) -> (r: String)
    ensures
        r@ == decimal(int_or_zero(*f) as int),
{
    decimal_string(get_i32(f))
}

/// The club that a row names.
pub open spec fn club_of(g: GolferView) -> ClubView {
    ClubView {
        id: decimal(int_or_zero(g.club_id) as int),
        name: text_or_empty(g.club_name),
        assn: decimal(int_or_zero(g.club_affiliation_id) as int),
        state: text_or_empty(g.state),
        country: text_or_empty(g.country),
    }
}

/// The clubs that the rows name, one for each row, in the order of the rows.
pub open spec fn clubs_of(rows: Seq<GolferView>) -> Seq<ClubView> {
    Seq::new(rows.len(), |i: int| club_of(rows[i]))
}

/// The person that a row describes, as a member of the given clubs. The
/// displayed name is the first and the last name with one space between them.
pub open spec fn golfer_of(g: GolferView, clubs: Seq<ClubView>) -> GetHandicapResponseView {
    GetHandicapResponseView {
        id: text_or_empty(g.ghin),
        source: "ghin"@,
        prefix: text_or_empty(g.prefix),
        first_name: text_or_empty(g.first_name),
        middle_name: text_or_empty(g.middle_name),
        last_name: text_or_empty(g.last_name),
        suffix: text_or_empty(g.suffix),
        player_name: text_or_empty(g.first_name) + " "@ + text_or_empty(g.last_name),
        gender: text_or_empty(g.gender),
        active: true,
        index: text_or_empty(g.handicap_index),
        rev_date: text_or_empty(g.rev_date),
        clubs: clubs,
    }
}

/// The rows rolled up into one person: the personal fields of the first row,
/// and the clubs of all rows. Without a row there is nobody to describe.
pub open spec fn rollup_of(rows: Seq<GolferView>) -> Result<SearchPlayerResponseView, ErrorView> {
    if rows.len() == 0 {
        Err(ErrorView::EmptyResult)
    } else {
        Ok(SearchPlayerResponseView { players: seq![golfer_of(rows[0], clubs_of(rows))] })
    }
}

/// The rows fanned out: each row a person of its own, with its one club.
pub open spec fn fan_out_of(rows: Seq<GolferView>) -> SearchPlayerResponseView {
    SearchPlayerResponseView {
        players: Seq::new(rows.len(), |i: int| golfer_of(rows[i], seq![club_of(rows[i])])),
    }
}

fn club(g: &Golfer) -> (r: Club)
    ensures
        r@ == club_of(g@),
{
    Club {
        id: get_int_to_str(&g.club_id),
        name: get_str(&g.club_name),
        assn: get_int_to_str(&g.club_affiliation_id),
        state: get_str(&g.state),
        country: get_str(&g.country),
    }
}

pub fn get_club(g: &Golfer) -> (r: Vec<Club>)
    ensures
        views(r@) == seq![club_of(g@)],
{
    let mut r: Vec<Club> = Vec::new();
    r.push(club(g));
    r
}

pub fn get_clubs(golfers: &Vec<Golfer>) -> (r: Vec<Club>)
    ensures
        views(r@) == clubs_of(views(golfers@)),
{
    let mut r: Vec<Club> = Vec::new();
    let mut i: usize = 0;
    while i < golfers.len()
        invariant
            i <= golfers.len(),
            r.len() == i,
            forall|j: int| 0 <= j < i ==> r[j]@ == club_of(#[trigger] golfers[j]@),
        decreases golfers.len() - i,
    {
        r.push(club(&golfers[i]));
        i += 1;
    }
    r
}

pub fn get_golfer(g: &Golfer, clubs: Vec<Club>) -> (r: GetHandicapResponse)
    ensures
        r@ == golfer_of(g@, views(clubs@)),
{
    let first_name = get_str(&g.first_name);
    let last_name = get_str(&g.last_name);
    let player_name = first_name.clone().concat(" ").concat(last_name.as_str());
    GetHandicapResponse {
        id: get_str(&g.ghin),
        source: String::from_str("ghin"),
        prefix: get_str(&g.prefix),
        first_name,
        middle_name: get_str(&g.middle_name),
        last_name,
        suffix: get_str(&g.suffix),
        player_name,
        gender: get_str(&g.gender),
        active: true,
        index: get_str(&g.handicap_index),
        rev_date: get_str(&g.rev_date),
        clubs,
    }
}

/// One person for all rows: the search was for a single golfer.
pub fn rollup_golfer(golfers: &Vec<Golfer>) -> (r: Result<SearchPlayerResponse, Error>)
    ensures
        outcome_view(r) == rollup_of(views(golfers@)),
        golfers.len() == 0 <==> r is Err,
        r matches Err(e) ==> e == Error::EmptyResult,
        r matches Ok(found) ==> found.players.len() == 1 && found.players[0].clubs.len()
            == golfers.len(),
{
    if golfers.len() == 0 {
        Err(Error::EmptyResult)
    } else {
        let clubs = get_clubs(golfers);
        let mut players: Vec<GetHandicapResponse> = Vec::new();
        players.push(get_golfer(&golfers[0], clubs));
        let found = SearchPlayerResponse { players };
        assert(found@.players =~= seq![
            golfer_of(views(golfers@)[0], clubs_of(views(golfers@))),
        ]);
        assert(views(found.players[0].clubs@).len() == golfers.len());
        Ok(found)
    }
}

/// One person for each row: the search was a general one.
pub fn no_rollup_golfer(golfers: &Vec<Golfer>) -> (r: Result<SearchPlayerResponse, Error>)
    ensures
        r matches Ok(found) && found@ == fan_out_of(views(golfers@)) && found.players.len()
            == golfers.len() && forall|i: int|
            0 <= i < found.players.len() ==> (#[trigger] found.players[i]).clubs.len() == 1,
{
    let mut players: Vec<GetHandicapResponse> = Vec::new();
    let mut i: usize = 0;
    while i < golfers.len()
        invariant
            i <= golfers.len(),
            players.len() == i,
            forall|j: int|
                0 <= j < i ==> (#[trigger] players[j])@ == golfer_of(
                    golfers[j]@,
                    seq![club_of(golfers[j]@)],
                ) && players[j].clubs.len() == 1,
        decreases golfers.len() - i,
    {
        let g = &golfers[i];
        let clubs = get_club(g);
        assert(views(clubs@).len() == 1);
        players.push(get_golfer(g, clubs));
        i += 1;
    }
    let found = SearchPlayerResponse { players };
    assert(found@.players =~= fan_out_of(views(golfers@)).players);
    Ok(found)
}

/// The hole that the provider's record describes.
pub open spec fn hole_of(h: HoleResponseView) -> HoleView {
    HoleView {
        number: int_or_zero(h.Number),
        hole_id: int_or_zero(h.HoleId),
        length: int_or_zero(h.Length),
        par: int_or_zero(h.Par),
        allocation: int_or_zero(h.Allocation),
    }
}

/// The rating that the provider's record describes.
pub open spec fn rating_of(r: RatingResponseView) -> RatingView {
    RatingView {
        rating_type: text_or_empty(r.RatingType),
        course_rating: float_or_zero(r.CourseRating),
        slope_rating: float_or_zero(r.SlopeRating),
        bogey_rating: float_or_zero(r.BogeyRating),
    }
}

/// The tee set that the provider's record describes, with its ratings and its
/// holes in the provider's order.
pub open spec fn tee_of(t: TeeResponseView) -> TeeView {
    TeeView {
        tee_id: int_or_zero(t.TeeSetRatingID),
        tee_name: text_or_empty(t.TeeSetRatingName),
        gender: text_or_empty(t.Gender),
        holes_number: int_or_zero(t.HolesNumber),
        total_yardage: int_or_zero(t.TotalYardage),
        total_meters: int_or_zero(t.TotalMeters),
        total_par: int_or_zero(t.TotalPar),
        ratings: Seq::new(t.Ratings.len(), |i: int| rating_of(t.Ratings[i])),
        holes: Seq::new(t.Holes.len(), |i: int| hole_of(t.Holes[i])),
    }
}

/// The tee sets that the provider's records describe, in the provider's order.
pub open spec fn tees_of(tee_sets: Seq<TeeResponseView>) -> Seq<TeeView> {
    Seq::new(tee_sets.len(), |i: int| tee_of(tee_sets[i]))
}

/// The course that a course lookup describes. The lookup knows the season and
/// the tee sets; it does not know the street address, the country, the full
/// name or the date of the last change.
pub open spec fn course_of_lookup(c: GetCourseRespView) -> CourseView {
    CourseView {
        course_id: int_or_zero(c.CourseId),
        course_status: text_or_empty(c.CourseStatus),
        course_name: text_or_empty(c.CourseName),
        facility_id: int_or_zero(c.Facility.FacilityId),
        facility_status: text_or_empty(c.Facility.FacilityStatus),
        facility_name: text_or_empty(c.Facility.FacilityName),
        geo_location_formatted_address: Some(
            text_or_empty(c.Facility.GeoLocationFormattedAddress),
        ),
        geo_location_latitude: float_or_zero(c.Facility.GeoLocationLatitude),
        geo_location_longitude: float_or_zero(c.Facility.GeoLocationLongitude),
        city: Some(text_or_empty(c.CourseCity)),
        state: Some(text_or_empty(c.CourseState)),
        season_name: Some(text_or_empty(c.Season.SeasonName)),
        season_start_date: Some(text_or_empty(c.Season.SeasonStartDate)),
        season_end_date: Some(text_or_empty(c.Season.SeasonEndDate)),
        is_all_year: Some(bool_or_false(c.Season.IsAllYear)),
        address1: None,
        address2: None,
        country: None,
        fullname: None,
        updated_on: None,
        tees: tees_of(c.TeeSets),
    }
}

/// The course that one row of a course search describes. The search knows the
/// street address, the country, the full name and the date of the last change;
/// it does not know the formatted address, the season or the tee sets.
pub open spec fn course_of_search(c: CourseResponseView) -> CourseView {
    CourseView {
        course_id: int_or_zero(c.CourseID),
        course_status: text_or_empty(c.CourseStatus),
        course_name: text_or_empty(c.CourseName),
        facility_id: int_or_zero(c.FacilityID),
        facility_status: text_or_empty(c.FacilityStatus),
        facility_name: text_or_empty(c.FacilityName),
        geo_location_formatted_address: None,
        geo_location_latitude: float_or_zero(c.GeoLocationLatitude),
        geo_location_longitude: float_or_zero(c.GeoLocationLongitude),
        city: Some(text_or_empty(c.City)),
        state: Some(text_or_empty(c.State)),
        season_name: None,
        season_start_date: None,
        season_end_date: None,
        is_all_year: None,
        address1: Some(text_or_empty(c.Address1)),
        address2: Some(text_or_empty(c.Address2)),
        country: Some(text_or_empty(c.Country)),
        fullname: Some(text_or_empty(c.FullName)),
        updated_on: Some(text_or_empty(c.UpdatedOn)),
        tees: Seq::empty(),
    }
}

/// The courses that the rows of a course search describe, in the order of the
/// rows.
pub open spec fn courses_of(rows: Seq<CourseResponseView>) -> SearchCourseResponseView {
    SearchCourseResponseView { courses: Seq::new(rows.len(), |i: int| course_of_search(rows[i])) }
}

fn hole(h: &HoleResponse) -> (r: Hole)
    ensures
        r@ == hole_of(h@),
{
    Hole {
        number: get_i32(&h.Number),
        hole_id: get_i32(&h.HoleId),
        length: get_i32(&h.Length),
        par: get_i32(&h.Par),
        allocation: get_i32(&h.Allocation),
    }
}

fn rating(r: &RatingResponse) -> (out: Rating)
    ensures
        out@ == rating_of(r@),
{
    Rating {
        rating_type: get_str(&r.RatingType),
        course_rating: get_f32(&r.CourseRating),
        slope_rating: get_f32(&r.SlopeRating),
        bogey_rating: get_f32(&r.BogeyRating),
    }
}

pub fn get_holes(holes: &Vec<HoleResponse>) -> (r: Vec<Hole>)
    ensures
        views(r@) == Seq::new(holes.len() as nat, |i: int| hole_of(holes[i]@)),
{
    let mut r: Vec<Hole> = Vec::new();
    let mut i: usize = 0;
    while i < holes.len()
        invariant
            i <= holes.len(),
            r.len() == i,
            forall|j: int| 0 <= j < i ==> (#[trigger] r[j])@ == hole_of(holes[j]@),
        decreases holes.len() - i,
    {
        r.push(hole(&holes[i]));
        i += 1;
    }
    r
}

pub fn get_ratings(ratings: &Vec<RatingResponse>) -> (r: Vec<Rating>)
    ensures
        views(r@) == Seq::new(ratings.len() as nat, |i: int| rating_of(ratings[i]@)),
{
    let mut r: Vec<Rating> = Vec::new();
    let mut i: usize = 0;
    while i < ratings.len()
        invariant
            i <= ratings.len(),
            r.len() == i,
            forall|j: int| 0 <= j < i ==> (#[trigger] r[j])@ == rating_of(ratings[j]@),
        decreases ratings.len() - i,
    {
        r.push(rating(&ratings[i]));
        i += 1;
    }
    r
}

fn tee(t: &TeeResponse) -> (r: Tee)
    ensures
        r@ == tee_of(t@),
{
    let r = Tee {
        tee_id: get_i32(&t.TeeSetRatingID),
        tee_name: get_str(&t.TeeSetRatingName),
        gender: get_str(&t.Gender),
        holes_number: get_i32(&t.HolesNumber),
        total_yardage: get_i32(&t.TotalYardage),
        total_meters: get_i32(&t.TotalMeters),
        total_par: get_i32(&t.TotalPar),
        ratings: get_ratings(&t.Ratings),
        holes: get_holes(&t.Holes),
    };
    assert(r@.ratings =~= tee_of(t@).ratings);
    assert(r@.holes =~= tee_of(t@).holes);
    r
}

pub fn _get_tees(tee_sets: &Vec<TeeResponse>) -> (r: Vec<Tee>)
    ensures
        views(r@) == tees_of(views(tee_sets@)),
{
    let mut r: Vec<Tee> = Vec::new();
    let mut i: usize = 0;
    while i < tee_sets.len()
        invariant
            i <= tee_sets.len(),
            r.len() == i,
            forall|j: int| 0 <= j < i ==> (#[trigger] r[j])@ == tee_of(tee_sets[j]@),
        decreases tee_sets.len() - i,
    {
        r.push(tee(&tee_sets[i]));
        i += 1;
    }
    r
}

/// The course of a course lookup.
pub fn course_from_lookup(c: &GetCourseResp) -> (r: Course)
    ensures
        r@ == course_of_lookup(c@),
{
    let f = &c.Facility;
    let s = &c.Season;
    Course {
        course_id: get_i32(&c.CourseId),
        course_status: get_str(&c.CourseStatus),
        course_name: get_str(&c.CourseName),
        facility_id: get_i32(&f.FacilityId),
        facility_status: get_str(&f.FacilityStatus),
        facility_name: get_str(&f.FacilityName),
        geo_location_formatted_address: Some(get_str(&f.GeoLocationFormattedAddress)),
        geo_location_latitude: get_f32(&f.GeoLocationLatitude),
        geo_location_longitude: get_f32(&f.GeoLocationLongitude),
        city: Some(get_str(&c.CourseCity)),
        state: Some(get_str(&c.CourseState)),
        season_name: Some(get_str(&s.SeasonName)),
        season_start_date: Some(get_str(&s.SeasonStartDate)),
        season_end_date: Some(get_str(&s.SeasonEndDate)),
        is_all_year: Some(get_bool(&s.IsAllYear)),
        address1: None,
        address2: None,
        country: None,
        fullname: None,
        updated_on: None,
        tees: _get_tees(&c.TeeSets),
    }
}

/// The course of one row of a course search.
pub fn course_from_search(c: &CourseResponse) -> (r: Course)
    ensures
        r@ == course_of_search(c@),
{
    let tees: Vec<Tee> = Vec::new();
    let r = Course {
        course_id: get_i32(&c.CourseID),
        course_status: get_str(&c.CourseStatus),
        course_name: get_str(&c.CourseName),
        geo_location_latitude: get_f32(&c.GeoLocationLatitude),
        geo_location_longitude: get_f32(&c.GeoLocationLongitude),
        facility_id: get_i32(&c.FacilityID),
        facility_status: get_str(&c.FacilityStatus),
        facility_name: get_str(&c.FacilityName),
        fullname: Some(get_str(&c.FullName)),
        address1: Some(get_str(&c.Address1)),
        address2: Some(get_str(&c.Address2)),
        city: Some(get_str(&c.City)),
        state: Some(get_str(&c.State)),
        country: Some(get_str(&c.Country)),
        updated_on: Some(get_str(&c.UpdatedOn)),
        geo_location_formatted_address: None,
        season_name: None,
        season_start_date: None,
        season_end_date: None,
        is_all_year: None,
        tees,
    };
    assert(r@.tees =~= Seq::empty());
    r
}

/// The answer to a course search: one course for each row.
pub fn courses_from_search(courses: &Vec<CourseResponse>) -> (r: SearchCourseResponse)
    ensures
        r@ == courses_of(views(courses@)),
{
    let mut out: Vec<Course> = Vec::new();
    let mut i: usize = 0;
    while i < courses.len()
        invariant
            i <= courses.len(),
            out.len() == i,
            forall|j: int| 0 <= j < i ==> (#[trigger] out[j])@ == course_of_search(courses[j]@),
        decreases courses.len() - i,
    {
        out.push(course_from_search(&courses[i]));
        i += 1;
    }
    let r = SearchCourseResponse { courses: out };
    assert(r@.courses =~= courses_of(views(courses@)).courses);
    r
}

/// The answer to a player search: the rows rolled up where the search named
/// a golfer id, and fanned out where it did not.
pub open spec fn players_of(q: SearchPlayerView, rows: Seq<GolferView>) -> Result<
    SearchPlayerResponseView,
    ErrorView,
> {
    if q.golfer_id.len() > 0 {
        rollup_of(rows)
    } else {
        Ok(fan_out_of(rows))
    }
}

/// The answer to a player search, from the rows that the provider sent.
pub fn players(q: &SearchPlayer, golfers: &Vec<Golfer>) -> (r: Result<SearchPlayerResponse, Error>)
    ensures
        outcome_view(r) == players_of(q@, views(golfers@)),
        r is Err <==> q.golfer_id@.len() > 0 && golfers.len() == 0,
{
    if q.golfer_id.as_str().is_empty() {
        no_rollup_golfer(golfers)
    } else {
        rollup_golfer(golfers)
    }
}

/// The answer to a tee set lookup: one tee set for each of the provider's.
pub fn tees_response(tee_sets: &Vec<TeeResponse>) -> (r: GetTeesResponse)
    ensures
        r@ == (GetTeesResponseView { tees: tees_of(views(tee_sets@)) }),
{
    GetTeesResponse { tees: _get_tees(tee_sets) }
}

/// The answer to a request for product access: the provider's word, as it is.
pub fn gpa_response(granted: GpaPostResponse) -> (r: GpaResponse)
    ensures
        r@ == (GpaResponseView { success: granted@.success }),
{
    GpaResponse { success: granted.success }
}

/// A row that leaves out what it could say of the club still names a club:
/// an absent number reads `0`, an absent text is empty.
pub proof fn absent_club_fields_take_defaults(g: GolferView)
    ensures
        g.club_id is None ==> club_of(g).id == seq!['0'],
        g.club_affiliation_id is None ==> club_of(g).assn == seq!['0'],
        g.club_name is None ==> club_of(g).name == Seq::<char>::empty(),
        g.state is None ==> club_of(g).state == Seq::<char>::empty(),
        g.country is None ==> club_of(g).country == Seq::<char>::empty(),
{
    decimal_of_zero();
}

/// A row that leaves out what it could say of the person still describes a
/// person: every absent text is empty, and a name of which both parts are
/// absent is the single space between them.
pub proof fn absent_personal_fields_take_defaults(g: GolferView, clubs: Seq<ClubView>)
    ensures
        g.ghin is None ==> golfer_of(g, clubs).id == Seq::<char>::empty(),
        g.prefix is None ==> golfer_of(g, clubs).prefix == Seq::<char>::empty(),
        g.first_name is None ==> golfer_of(g, clubs).first_name == Seq::<char>::empty(),
        g.middle_name is None ==> golfer_of(g, clubs).middle_name == Seq::<char>::empty(),
        g.last_name is None ==> golfer_of(g, clubs).last_name == Seq::<char>::empty(),
        g.suffix is None ==> golfer_of(g, clubs).suffix == Seq::<char>::empty(),
        g.gender is None ==> golfer_of(g, clubs).gender == Seq::<char>::empty(),
        g.handicap_index is None ==> golfer_of(g, clubs).index == Seq::<char>::empty(),
        g.rev_date is None ==> golfer_of(g, clubs).rev_date == Seq::<char>::empty(),
        g.first_name is None && g.last_name is None ==> golfer_of(g, clubs).player_name == " "@,
{
}

/// A tee set, a rating or a hole that leaves a field out has zero, positive
/// zero or the empty text in its place.
pub proof fn absent_tee_fields_take_defaults(
    t: TeeResponseView,
    r: RatingResponseView,
    h: HoleResponseView,
)
    ensures
        t.TeeSetRatingID is None ==> tee_of(t).tee_id == 0,
        t.TeeSetRatingName is None ==> tee_of(t).tee_name == Seq::<char>::empty(),
        t.Gender is None ==> tee_of(t).gender == Seq::<char>::empty(),
        t.HolesNumber is None ==> tee_of(t).holes_number == 0,
        t.TotalYardage is None ==> tee_of(t).total_yardage == 0,
        t.TotalMeters is None ==> tee_of(t).total_meters == 0,
        t.TotalPar is None ==> tee_of(t).total_par == 0,
        r.RatingType is None ==> rating_of(r).rating_type == Seq::<char>::empty(),
        r.CourseRating is None ==> rating_of(r).course_rating == FloatBits::zero(),
        r.SlopeRating is None ==> rating_of(r).slope_rating == FloatBits::zero(),
        r.BogeyRating is None ==> rating_of(r).bogey_rating == FloatBits::zero(),
        h.Number is None ==> hole_of(h).number == 0,
        h.HoleId is None ==> hole_of(h).hole_id == 0,
        h.Length is None ==> hole_of(h).length == 0,
        h.Par is None ==> hole_of(h).par == 0,
        h.Allocation is None ==> hole_of(h).allocation == 0,
{
}

/// A course that leaves a field out has zero, positive zero, the empty text
/// or `false` in its place, whichever of the two endpoints describes it.
pub proof fn absent_course_fields_take_defaults(c: GetCourseRespView, row: CourseResponseView)
    ensures
        c.CourseId is None ==> course_of_lookup(c).course_id == 0,
        c.CourseStatus is None ==> course_of_lookup(c).course_status == Seq::<char>::empty(),
        c.CourseName is None ==> course_of_lookup(c).course_name == Seq::<char>::empty(),
        c.CourseCity is None ==> course_of_lookup(c).city == Some(Seq::<char>::empty()),
        c.CourseState is None ==> course_of_lookup(c).state == Some(Seq::<char>::empty()),
        c.Facility.FacilityId is None ==> course_of_lookup(c).facility_id == 0,
        c.Facility.FacilityStatus is None ==> course_of_lookup(c).facility_status == Seq::<
            char,
        >::empty(),
        c.Facility.FacilityName is None ==> course_of_lookup(c).facility_name == Seq::<
            char,
        >::empty(),
        c.Facility.GeoLocationFormattedAddress is None ==> course_of_lookup(
            c,
        ).geo_location_formatted_address == Some(Seq::<char>::empty()),
        c.Facility.GeoLocationLatitude is None ==> course_of_lookup(c).geo_location_latitude
            == FloatBits::zero(),
        c.Facility.GeoLocationLongitude is None ==> course_of_lookup(c).geo_location_longitude
            == FloatBits::zero(),
        c.Season.SeasonName is None ==> course_of_lookup(c).season_name == Some(
            Seq::<char>::empty(),
        ),
        c.Season.SeasonStartDate is None ==> course_of_lookup(c).season_start_date == Some(
            Seq::<char>::empty(),
        ),
        c.Season.SeasonEndDate is None ==> course_of_lookup(c).season_end_date == Some(
            Seq::<char>::empty(),
        ),
        c.Season.IsAllYear is None ==> course_of_lookup(c).is_all_year == Some(false),
        row.CourseID is None ==> course_of_search(row).course_id == 0,
        row.CourseStatus is None ==> course_of_search(row).course_status == Seq::<char>::empty(),
        row.CourseName is None ==> course_of_search(row).course_name == Seq::<char>::empty(),
        row.GeoLocationLatitude is None ==> course_of_search(row).geo_location_latitude
            == FloatBits::zero(),
        row.GeoLocationLongitude is None ==> course_of_search(row).geo_location_longitude
            == FloatBits::zero(),
        row.FacilityID is None ==> course_of_search(row).facility_id == 0,
        row.FacilityStatus is None ==> course_of_search(row).facility_status == Seq::<
            char,
        >::empty(),
        row.FacilityName is None ==> course_of_search(row).facility_name == Seq::<char>::empty(),
        row.FullName is None ==> course_of_search(row).fullname == Some(Seq::<char>::empty()),
        row.Address1 is None ==> course_of_search(row).address1 == Some(Seq::<char>::empty()),
        row.Address2 is None ==> course_of_search(row).address2 == Some(Seq::<char>::empty()),
        row.City is None ==> course_of_search(row).city == Some(Seq::<char>::empty()),
        row.State is None ==> course_of_search(row).state == Some(Seq::<char>::empty()),
        row.Country is None ==> course_of_search(row).country == Some(Seq::<char>::empty()),
        row.UpdatedOn is None ==> course_of_search(row).updated_on == Some(Seq::<char>::empty()),
{
}

/// Rolled up, the rows of one golfer are one person with one club for each
/// row; fanned out, they are one person for each row, with one club each.
pub proof fn rows_become_players(rows: Seq<GolferView>)
    ensures
        rows.len() == 0 ==> rollup_of(rows) == Err::<SearchPlayerResponseView, ErrorView>(
            ErrorView::EmptyResult,
        ),
        rows.len() > 0 ==> rollup_of(rows) is Ok && rollup_of(rows)->Ok_0.players.len() == 1
            && rollup_of(rows)->Ok_0.players[0].clubs.len() == rows.len(),
        fan_out_of(rows).players.len() == rows.len(),
        forall|i: int|
            0 <= i < rows.len() ==> (#[trigger] fan_out_of(rows).players[i]).clubs.len() == 1,
{
}

} // verus!
