//! Identity and profile model: the value types behind a user's profile,
//! its search preferences, the transient profile builder driven by the
//! creation wizard, and the immutable view and like records.

use vstd::prelude::*;

use crate::text;
use crate::user::MyUserId;

verus! {

pub type Age = i64;

/// Longest accepted display name, in characters.
pub const MAX_NAME_LENGTH: usize = 25;

/// Immutable fact: `from` reacted to `to`'s profile at `timestamp`,
/// either liking or skipping it. Used only to exclude already-seen
/// candidates; never deleted.
#[derive(Debug, Clone, Copy, PartialEq, Eq, Structural)]
pub struct ViewRecord {
    pub from: MyUserId,
    pub to: MyUserId,
    pub timestamp: i64,
    pub liked: bool,
}

impl ViewRecord {
    /// `timestamp` is the current clock reading in milliseconds,
    /// supplied by the caller since the core reads no clock.
    pub fn new(from: MyUserId, to: MyUserId, liked: bool, timestamp: i64) -> (r: ViewRecord)
        ensures
            r == (ViewRecord { from, to, liked, timestamp }),
    {
        ViewRecord { from, to, timestamp, liked }
    }
}

/// Pending, deletable expression of interest from `from` toward `to`.
/// Consumed (deleted) by a confirmed match or by an explicit reaction
/// in the liked-me queue.
#[derive(Debug)]
pub struct Like {
    pub from: MyUserId,
    pub to: MyUserId,
    pub timestamp: i64,
    pub message: Option<String>,
}

impl Like {
    /// `timestamp` is the current clock reading in milliseconds.
    pub fn new(from: MyUserId, to: MyUserId, message: Option<String>, timestamp: i64) -> (r: Like)
        ensures
            r == (Like { from, to, message, timestamp }),
    {
        Like { from, to, timestamp, message }
    }
}

impl Clone for Like {
    fn clone(&self) -> (r: Self)
        ensures
            r == *self,
    {
        Like {
            from: self.from,
            to: self.to,
            timestamp: self.timestamp,
            message: match &self.message {
                Some(s) => Some(s.clone()),
                None => None,
            },
        }
    }
}

/// The eight wizard steps, in the order the creation flow walks them.
#[derive(Debug, Clone, Copy, PartialEq, Eq, Structural)]
pub enum ProfileBuildingState {
    Name,
    Age,
    Location,
    Sex,
    MeetingPreferences,
    HearingLevel,
    Description,
    Photo,
}

impl ProfileBuildingState {
    /// Step that follows this one, `None` after the last.
    pub open spec fn spec_next(self) -> Option<ProfileBuildingState> {
        match self {
            ProfileBuildingState::Name => Some(ProfileBuildingState::Age),
            ProfileBuildingState::Age => Some(ProfileBuildingState::Location),
            ProfileBuildingState::Location => Some(ProfileBuildingState::Sex),
            ProfileBuildingState::Sex => Some(ProfileBuildingState::MeetingPreferences),
            ProfileBuildingState::MeetingPreferences => Some(ProfileBuildingState::HearingLevel),
            ProfileBuildingState::HearingLevel => Some(ProfileBuildingState::Description),
            ProfileBuildingState::Description => Some(ProfileBuildingState::Photo),
            ProfileBuildingState::Photo => None,
        }
    }

    pub fn next(self) -> (r: Option<ProfileBuildingState>)
        ensures
            r == self.spec_next(),
    {
        match self {
            ProfileBuildingState::Name => Some(ProfileBuildingState::Age),
            ProfileBuildingState::Age => Some(ProfileBuildingState::Location),
            ProfileBuildingState::Location => Some(ProfileBuildingState::Sex),
            ProfileBuildingState::Sex => Some(ProfileBuildingState::MeetingPreferences),
            ProfileBuildingState::MeetingPreferences => Some(ProfileBuildingState::HearingLevel),
            ProfileBuildingState::HearingLevel => Some(ProfileBuildingState::Description),
            ProfileBuildingState::Description => Some(ProfileBuildingState::Photo),
            ProfileBuildingState::Photo => None,
        }
    }
}

impl Default for ProfileBuildingState {
    fn default() -> (r: Self)
        ensures
            r == ProfileBuildingState::Name,
    {
        ProfileBuildingState::Name
    }
}

#[derive(Debug, Clone, Copy, PartialEq, Eq, Structural)]
pub enum Sex {
    Male,
    Female,
}

impl Default for Sex {
    fn default() -> (r: Self)
        ensures
            r == Sex::Male,
    {
        Sex::Male
    }
}

impl Sex {
    /// Token-to-value mapping used by the wizard's sex step.
    pub open spec fn spec_from_str(s: Seq<char>) -> Option<Sex> {
        if s == text::BOY@ {
            Some(Sex::Male)
        } else if s == text::GIRL@ {
            Some(Sex::Female)
        } else {
            None
        }
    }

    pub fn from_str(s: &str) -> (r: Result<Sex, ()>)
        ensures
            r == match Sex::spec_from_str(s@) {
                Some(v) => Result::<Sex, ()>::Ok(v),
                None => Result::<Sex, ()>::Err(()),
            },
    {
        if crate::strutil::str_eq(s, text::BOY) {
            Ok(Sex::Male)
        } else if crate::strutil::str_eq(s, text::GIRL) {
            Ok(Sex::Female)
        } else {
            Err(())
        }
    }
}

#[derive(Debug, Clone, Copy, PartialEq, Eq, Structural)]
pub enum HearingLevel {
    CompletelyDeaf,
    HearingImpaired,
    Hearing,
}

impl Default for HearingLevel {
    fn default() -> (r: Self)
        ensures
            r == HearingLevel::CompletelyDeaf,
    {
        HearingLevel::CompletelyDeaf
    }
}

impl HearingLevel {
    /// Token-to-value mapping: the sexed button captions and the plain
    /// identifier spellings used inside button payloads.
    pub open spec fn spec_from_str(s: Seq<char>) -> Option<HearingLevel> {
        if s == text::DEAF_GIRL@ || s == text::DEAF_BOY@ || s == "CompletelyDeaf"@ {
            Some(HearingLevel::CompletelyDeaf)
        } else if s == text::HEARING_IMPAIRED_GIRL@ || s == text::HEARING_IMPAIRED_BOY@ || s
            == "HearingImpaired"@ {
            Some(HearingLevel::HearingImpaired)
        } else if s == text::HEARING_GIRL@ || s == text::HEARING_BOY@ || s == "Hearing"@ {
            Some(HearingLevel::Hearing)
        } else {
            None
        }
    }

    pub fn from_str(s: &str) -> (r: Result<HearingLevel, ()>)
        ensures
            r == match HearingLevel::spec_from_str(s@) {
                Some(v) => Result::<HearingLevel, ()>::Ok(v),
                None => Result::<HearingLevel, ()>::Err(()),
            },
    {
        if crate::strutil::str_eq(s, text::DEAF_GIRL) || crate::strutil::str_eq(s, text::DEAF_BOY)
            || crate::strutil::str_eq(s, "CompletelyDeaf") {
            Ok(HearingLevel::CompletelyDeaf)
        } else if crate::strutil::str_eq(s, text::HEARING_IMPAIRED_GIRL) || crate::strutil::str_eq(
            s,
            text::HEARING_IMPAIRED_BOY,
        ) || crate::strutil::str_eq(s, "HearingImpaired") {
            Ok(HearingLevel::HearingImpaired)
        } else if crate::strutil::str_eq(s, text::HEARING_GIRL) || crate::strutil::str_eq(
            s,
            text::HEARING_BOY,
        ) || crate::strutil::str_eq(s, "Hearing") {
            Ok(HearingLevel::Hearing)
        } else {
            Err(())
        }
    }

    /// Spelling used inside button payloads.
    pub fn to_str(&self) -> (r: &'static str)
        ensures
            r@ == match *self {
                HearingLevel::CompletelyDeaf => "CompletelyDeaf"@,
                HearingLevel::HearingImpaired => "HearingImpaired"@,
                HearingLevel::Hearing => "Hearing"@,
            },
    {
        match self {
            HearingLevel::CompletelyDeaf => "CompletelyDeaf",
            HearingLevel::HearingImpaired => "HearingImpaired",
            HearingLevel::Hearing => "Hearing",
        }
    }
}

/// Place of a user: the string the user typed (`displayed`) and the
/// normalized name used for exact-bucket matching (`actual`).
#[derive(Debug)]
pub struct Location {
    pub displayed: String,
    pub actual: String,
}

impl Location {
    pub fn new(displayed: String, actual: String) -> (r: Location)
        ensures
            r == (Location { displayed, actual }),
    {
        Location { displayed, actual }
    }
}

impl Clone for Location {
    fn clone(&self) -> (r: Self)
        ensures
            r == *self,
    {
        Location { displayed: self.displayed.clone(), actual: self.actual.clone() }
    }
}

impl Default for Location {
    fn default() -> (r: Self)
        ensures
            r.displayed@ == "Москва"@,
            r.actual@ == "Москва"@,
    {
        Location {
            displayed: String::from_str("Москва"),
            actual: String::from_str("Москва"),
        }
    }
}

/// Reference to an uploaded photo, as the transport names it.
#[derive(Debug, PartialEq, Eq)]
pub struct PhotoId(pub String);

impl Clone for PhotoId {
    fn clone(&self) -> (r: Self)
        ensures
            r == *self,
    {
        PhotoId(self.0.clone())
    }
}

/// Accepted age interval of a search preference.
#[derive(Debug, Clone, Copy, PartialEq, Eq, Structural)]
pub struct AgeFilter {
    pub greatest: Age,
    pub lowest: Age,
}

/// Largest accepted distance of a search preference; part of the schema
/// but not consulted by the candidate filter.
#[derive(Debug, Clone, Copy, PartialEq, Eq, Structural)]
pub struct DistanceFilter {
    pub max_meters: u64,
}

/// A user's stated preferences over candidates; every field is optional
/// and an absent field imposes no constraint.
#[derive(Debug)]
pub struct SearchOptions {
    pub age: Option<AgeFilter>,
    pub sex: Option<Sex>,
    pub distance: Option<DistanceFilter>,
    pub hearing_level: Option<Vec<HearingLevel>>,
}

/// Abstract value of [`SearchOptions`]: the optional hearing-level list
/// as a sequence.
#[verifier::ext_equal]
pub struct SearchOptionsV {
    pub age: Option<AgeFilter>,
    pub sex: Option<Sex>,
    pub distance: Option<DistanceFilter>,
    pub hearing_level: Option<Seq<HearingLevel>>,
}

impl View for SearchOptions {
    type V = SearchOptionsV;

    open spec fn view(&self) -> SearchOptionsV {
        SearchOptionsV {
            age: self.age,
            sex: self.sex,
            distance: self.distance,
            hearing_level: match self.hearing_level {
                Some(v) => Some(v@),
                None => None,
            },
        }
    }
}

impl Clone for SearchOptions {
    fn clone(&self) -> (r: Self)
        ensures
            r@ == self@,
    {
        SearchOptions {
            age: self.age,
            sex: self.sex,
            distance: self.distance,
            hearing_level: match &self.hearing_level {
                Some(v) => Some(clone_hearing_levels(v)),
                None => None,
            },
        }
    }
}

impl SearchOptionsV {
    /// Whether these preferences are the builder's output for a given
    /// desired sex: only the sex constraint may be set.
    pub open spec fn only_sex(self, want: Option<Sex>) -> bool {
        &&& self.sex == want
        &&& self.age is None
        &&& self.distance is None
        &&& self.hearing_level is None
    }
}

fn clone_hearing_levels(v: &Vec<HearingLevel>) -> (r: Vec<HearingLevel>)
    ensures
        r@ == v@,
{
    let mut out: Vec<HearingLevel> = Vec::new();
    let mut i: usize = 0;
    while i < v.len()
        invariant
            i <= v@.len(),
            out@ == v@.subrange(0, i as int),
        decreases v@.len() - i,
    {
        out.push(v[i]);
        i = i + 1;
    }
    assert(out@ =~= v@);
    out
}

/// Per-profile settings: the visibility flag and the search preferences.
#[derive(Debug)]
pub struct Settings {
    pub search_options: SearchOptions,
    pub show_up_in_search: bool,
}

/// Abstract value of [`Settings`].
#[verifier::ext_equal]
pub struct SettingsV {
    pub search_options: SearchOptionsV,
    pub show_up_in_search: bool,
}

impl View for Settings {
    type V = SettingsV;

    open spec fn view(&self) -> SettingsV {
        SettingsV {
            search_options: self.search_options@,
            show_up_in_search: self.show_up_in_search,
        }
    }
}

impl Clone for Settings {
    fn clone(&self) -> (r: Self)
        ensures
            r@ == self@,
    {
        Settings {
            search_options: self.search_options.clone(),
            show_up_in_search: self.show_up_in_search,
        }
    }
}

/// A fully built profile. One exists per identity once the wizard has
/// completed; partial state lives only in [`ProfileBuilder`].
#[derive(Debug)]
pub struct Profile {
    pub id: MyUserId,
    pub photos: Vec<PhotoId>,
    pub name: String,
    pub age: Age,
    pub sex: Sex,
    pub hearing_level: HearingLevel,
    pub location: Location,
    pub description: Option<String>,
    pub settings: Settings,
}

pub fn clone_photos(v: &Vec<PhotoId>) -> (r: Vec<PhotoId>)
    ensures
        r@ == v@,
{
    let mut out: Vec<PhotoId> = Vec::new();
    let mut i: usize = 0;
    while i < v.len()
        invariant
            i <= v@.len(),
            out@ == v@.subrange(0, i as int),
        decreases v@.len() - i,
    {
        out.push(v[i].clone());
        i = i + 1;
    }
    assert(out@ =~= v@);
    out
}

/// Abstract value of a [`Profile`]: the photo list as a sequence, the
/// settings by their abstract value.
#[verifier::ext_equal]
pub struct ProfileV {
    pub id: MyUserId,
    pub photos: Seq<PhotoId>,
    pub name: String,
    pub age: Age,
    pub sex: Sex,
    pub hearing_level: HearingLevel,
    pub location: Location,
    pub description: Option<String>,
    pub settings: SettingsV,
}

impl View for Profile {
    type V = ProfileV;

    open spec fn view(&self) -> ProfileV {
        ProfileV {
            id: self.id,
            photos: self.photos@,
            name: self.name,
            age: self.age,
            sex: self.sex,
            hearing_level: self.hearing_level,
            location: self.location,
            description: self.description,
            settings: self.settings@,
        }
    }
}

impl Clone for Profile {
    fn clone(&self) -> (r: Self)
        ensures
            r@ == self@,
    {
        Profile {
            id: self.id,
            photos: clone_photos(&self.photos),
            name: self.name.clone(),
            age: self.age,
            sex: self.sex,
            hearing_level: self.hearing_level,
            location: self.location.clone(),
            description: match &self.description {
                Some(s) => Some(s.clone()),
                None => None,
            },
            settings: self.settings.clone(),
        }
    }
}

impl Profile {
    /// Fresh builder for `user_id` with every optional field unset.
    pub fn builder(user_id: MyUserId) -> (r: ProfileBuilder)
        ensures
            r.id == user_id,
            r.photos@.len() == 0,
            r.name is None,
            r.age is None,
            r.sex is None,
            r.want_to_meet is None,
            r.hearing_level is None,
            r.location is None,
            r.description is None,
    {
        ProfileBuilder {
            id: user_id,
            photos: Vec::new(),
            name: None,
            age: None,
            sex: None,
            want_to_meet: None,
            hearing_level: None,
            location: None,
            description: None,
        }
    }
}

/// Transient accumulator of a profile under construction; destroyed by
/// [`ProfileBuilder::build`] when the wizard's final step completes.
#[derive(Debug)]
pub struct ProfileBuilder {
    pub id: MyUserId,
    pub photos: Vec<PhotoId>,
    pub name: Option<String>,
    pub age: Option<Age>,
    pub sex: Option<Sex>,
    pub want_to_meet: Option<Sex>,
    pub hearing_level: Option<HearingLevel>,
    pub location: Option<Location>,
    pub description: Option<String>,
}

/// Abstract value of a [`ProfileBuilder`].
#[verifier::ext_equal]
pub struct ProfileBuilderV {
    pub id: MyUserId,
    pub photos: Seq<PhotoId>,
    pub name: Option<String>,
    pub age: Option<Age>,
    pub sex: Option<Sex>,
    pub want_to_meet: Option<Sex>,
    pub hearing_level: Option<HearingLevel>,
    pub location: Option<Location>,
    pub description: Option<String>,
}

impl View for ProfileBuilder {
    type V = ProfileBuilderV;

    open spec fn view(&self) -> ProfileBuilderV {
        ProfileBuilderV {
            id: self.id,
            photos: self.photos@,
            name: self.name,
            age: self.age,
            sex: self.sex,
            want_to_meet: self.want_to_meet,
            hearing_level: self.hearing_level,
            location: self.location,
            description: self.description,
        }
    }
}

impl Clone for ProfileBuilder {
    fn clone(&self) -> (r: Self)
        ensures
            r@ == self@,
    {
        ProfileBuilder {
            id: self.id,
            photos: clone_photos(&self.photos),
            name: match &self.name {
                Some(s) => Some(s.clone()),
                None => None,
            },
            age: self.age,
            sex: self.sex,
            want_to_meet: self.want_to_meet,
            hearing_level: self.hearing_level,
            location: match &self.location {
                Some(l) => Some(l.clone()),
                None => None,
            },
            description: match &self.description {
                Some(s) => Some(s.clone()),
                None => None,
            },
        }
    }
}

/// The profile a builder materializes into: every unset optional field
/// is filled with a documented default (placeholder name, age 0, male,
/// completely deaf, the fixed default place, visible, no constraints),
/// so that building can never fail. Callers are responsible for driving
/// the wizard to genuine completion first; the defaulting deliberately
/// masks a skipped step rather than reporting it.
pub open spec fn built_from(b: ProfileBuilderV, p: ProfileV) -> bool {
    &&& p.id == b.id
    &&& p.photos == b.photos
    &&& match b.name {
        Some(n) => p.name == n,
        None => p.name@ == "Не указано"@,
    }
    &&& p.age == match b.age {
        Some(a) => a,
        None => 0,
    }
    &&& p.sex == match b.sex {
        Some(s) => s,
        None => Sex::Male,
    }
    &&& p.hearing_level == match b.hearing_level {
        Some(h) => h,
        None => HearingLevel::CompletelyDeaf,
    }
    &&& match b.location {
        Some(l) => p.location == l,
        None => p.location.displayed@ == "Москва"@ && p.location.actual@ == "Москва"@,
    }
    &&& p.description == b.description
    &&& p.settings.show_up_in_search == true
    &&& p.settings.search_options.only_sex(b.want_to_meet)
}

impl ProfileBuilder {
    pub fn build(self) -> (r: Profile)
        ensures
            built_from(self@, r@),
    {
        Profile {
            id: self.id,
            photos: self.photos,
            name: match self.name {
                Some(n) => n,
                None => String::from_str("Не указано"),
            },
            age: match self.age {
                Some(a) => a,
                None => 0,
            },
            sex: match self.sex {
                Some(s) => s,
                None => Sex::Male,
            },
            hearing_level: match self.hearing_level {
                Some(h) => h,
                None => HearingLevel::CompletelyDeaf,
            },
            location: match self.location {
                Some(l) => l,
                None => Location::default(),
            },
            description: self.description,
            settings: Settings {
                show_up_in_search: true,
                search_options: SearchOptions {
                    sex: self.want_to_meet,
                    age: None,
                    distance: None,
                    hearing_level: None,
                },
            },
        }
    }
}

/// Name-length validation: fails exactly when the name runs over
/// [`MAX_NAME_LENGTH`] characters, reporting the offending length.
#[derive(Debug)]
pub enum NameValidationError {
    TooLong { name: String, length: usize },
}

pub fn validate_name(n: &str) -> (r: Result<(), NameValidationError>)
    ensures
        match r {
            Ok(()) => n@.len() <= MAX_NAME_LENGTH,
            Err(NameValidationError::TooLong { name, length }) => n@.len() > MAX_NAME_LENGTH
                && name@ == n@ && length == n@.len(),
        },
{
    let length = n.unicode_len();
    if length > MAX_NAME_LENGTH {
        return Err(NameValidationError::TooLong { name: n.to_owned(), length });
    }
    Ok(())
}

} // verus!
