//! The fixed vocabulary of inbound button captions the state machine
//! recognizes. Captions are user-facing and arrive back as plain text.

use vstd::prelude::*;

verus! {

pub const BOY: &'static str = "Парень";

pub const GIRL: &'static str = "Девушка";

pub const WANT_A_BOY: &'static str = "Парня";

pub const WANT_A_GIRL: &'static str = "Девушку";

pub const WHATEVER: &'static str = "Без разницы";

pub const DEAF_GIRL: &'static str = "Глухая";

pub const DEAF_BOY: &'static str = "Глухой";

pub const HEARING_IMPAIRED_GIRL: &'static str = "Слабослышащая";

pub const HEARING_IMPAIRED_BOY: &'static str = "Слабослышащий";

pub const HEARING_GIRL: &'static str = "Слышащая";

pub const HEARING_BOY: &'static str = "Слышащий";

pub const LEAVE_EMPTY: &'static str = "Оставить пустым";

pub const WATCH_PROFILES: &'static str = "🚀 Поиск";

pub const MY_PROFILE: &'static str = "⭐ Профиль";

pub const LIKE: &'static str = "❤️";

pub const DISLIKE: &'static str = "👎";

pub const MENU: &'static str = "🏠";

pub const WHO_LIKES_ME: &'static str = "📩 Лайки";

} // verus!
