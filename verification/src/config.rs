//! The configuration snapshot that one wallpaper-change operation reads:
//! collection tags, category and purity filters, an optional API key, and the
//! poll interval. Loading the snapshot from disk is the surrounding program's
//! job; the core only reads values of this type.

use vstd::prelude::*;
use core::time::Duration;

verus! {

/// Poll interval, in minutes, used when the configuration does not set one.
pub const DEFAULT_INTERVAL: u64 = 10;

/// How many whole seconds a `Duration` holds.
pub uninterp spec fn duration_secs(d: Duration) -> u64;

/// Relies on core::time::Duration::from_secs: builds a duration of exactly
/// the given number of whole seconds.
pub assume_specification[ Duration::from_secs ](secs: u64) -> (d: Duration)
    ensures
        duration_secs(d) == secs,
;

/// Relies on core::time::Duration::as_secs: returns the number of whole
/// seconds the duration holds.
pub assume_specification[ Duration::as_secs ](d: &Duration) -> (r: u64)
    ensures
        r == duration_secs(*d),
;

/// Preferred wallpaper orientation; decides the resolution requested.
#[derive(Debug, Clone, Copy, PartialEq, Eq, Structural)]
pub enum Orientation {
    Landscape,
    Portrait,
    Squarish,
}

impl Orientation {
    /// The resolution string advertised for this orientation.
    pub open spec fn image_resolution_spec(self) -> Seq<char> {
        match self {
            Orientation::Landscape => "1920x1080"@,
            Orientation::Portrait => "1080x1920"@,
            Orientation::Squarish => "1440x1440"@,
        }
    }

    /// The lower-case name of this orientation.
    pub open spec fn as_str_spec(self) -> Seq<char> {
        match self {
            Orientation::Landscape => "landscape"@,
            Orientation::Portrait => "portrait"@,
            Orientation::Squarish => "squarish"@,
        }
    }

    pub fn get_image_resolution(self) -> (r: &'static str)
        ensures
            r@ == self.image_resolution_spec(),
    {
        match self {
            Orientation::Landscape => "1920x1080",
            Orientation::Portrait => "1080x1920",
            Orientation::Squarish => "1440x1440",
        }
    }

    pub fn as_str(self) -> (r: &'static str)
        ensures
            r@ == self.as_str_spec(),
    {
        match self {
            Orientation::Landscape => "landscape",
            Orientation::Portrait => "portrait",
            Orientation::Squarish => "squarish",
        }
    }
}

/// The character a single content-filter flag renders to.
pub open spec fn bit_char(b: bool) -> char {
    if b {
        '1'
    } else {
        '0'
    }
}

/// Renders one flag as `"1"` or `"0"`.
fn bit_str(b: bool) -> (r: &'static str)
    ensures
        r@ == seq![bit_char(b)],
{
    proof {
        reveal_strlit("1");
        reveal_strlit("0");
    }
    if b {
        let s = "1";
        proof {
            assert(s@ =~= seq![bit_char(b)]);
        }
        s
    } else {
        let s = "0";
        proof {
            assert(s@ =~= seq![bit_char(b)]);
        }
        s
    }
}

/// Content-category filter flags, rendered order-significant as
/// `general`, `anime`, `people`.
#[derive(Debug, Clone)]
pub struct Categories {
    pub general: Option<bool>,
    pub anime: Option<bool>,
    pub people: Option<bool>,
}

impl Categories {
    /// All three flags are present.
    pub open spec fn complete(self) -> bool {
        self.general is Some && self.anime is Some && self.people is Some
    }

    /// The three-character bit-string sent to the remote API.
    pub open spec fn bits_spec(self) -> Seq<char> {
        seq![
            bit_char(self.general->Some_0),
            bit_char(self.anime->Some_0),
            bit_char(self.people->Some_0),
        ]
    }

    /// Renders the flags as the bit-string the search query carries.
    pub fn bit_string(&self) -> (r: String)
        requires
            self.complete(),
        ensures
            r@ == self.bits_spec(),
    {
        let mut s = String::new();
        s.append(bit_str(self.general.unwrap()));
        s.append(bit_str(self.anime.unwrap()));
        s.append(bit_str(self.people.unwrap()));
        proof {
            assert(s@ =~= self.bits_spec());
        }
        s
    }
}

impl Default for Categories {
    /// General off, anime on, people off.
    fn default() -> (c: Self)
        ensures
            c.general == Some(false),
            c.anime == Some(true),
            c.people == Some(false),
    {
        Categories { general: Some(false), anime: Some(true), people: Some(false) }
    }
}

/// Content-purity filter flags, rendered order-significant as
/// `sfw`, `sketchy`, `nsfw`.
#[derive(Debug, Clone)]
pub struct Purity {
    pub sfw: Option<bool>,
    pub sketchy: Option<bool>,
    pub nsfw: Option<bool>,
}

impl Purity {
    /// All three flags are present.
    pub open spec fn complete(self) -> bool {
        self.sfw is Some && self.sketchy is Some && self.nsfw is Some
    }

    /// The three-character bit-string sent to the remote API.
    pub open spec fn bits_spec(self) -> Seq<char> {
        seq![
            bit_char(self.sfw->Some_0),
            bit_char(self.sketchy->Some_0),
            bit_char(self.nsfw->Some_0),
        ]
    }

    /// Renders the flags as the bit-string the search query carries.
    pub fn bit_string(&self) -> (r: String)
        requires
            self.complete(),
        ensures
            r@ == self.bits_spec(),
    {
        let mut s = String::new();
        s.append(bit_str(self.sfw.unwrap()));
        s.append(bit_str(self.sketchy.unwrap()));
        s.append(bit_str(self.nsfw.unwrap()));
        proof {
            assert(s@ =~= self.bits_spec());
        }
        s
    }
}

impl Default for Purity {
    /// Safe-for-work only.
    fn default() -> (c: Self)
        ensures
            c.sfw == Some(true),
            c.sketchy == Some(false),
            c.nsfw == Some(false),
    {
        Purity { sfw: Some(true), sketchy: Some(false), nsfw: Some(false) }
    }
}

/// One immutable configuration snapshot.
#[derive(Debug, Clone)]
pub struct Config {
    /// Collection tags used as search terms; each is expected to start with
    /// a tag marker such as `@`.
    pub collections: Option<Vec<String>>,
    /// Poll interval in minutes; read and written through `get_interval`
    /// and `set_interval`.
    pub interval: Option<u64>,
    pub orientation: Option<Orientation>,
    /// Resolution string, normally matching the orientation.
    pub image_resolution: Option<String>,
    /// API key; required by the remote service for some content.
    pub api_key: Option<String>,
    pub categories: Option<Categories>,
    pub purity: Option<Purity>,
}

impl Config {
    /// The poll interval in minutes, falling back to the default.
    pub open spec fn minutes_or_default(self) -> u64 {
        match self.interval {
            Some(m) => m,
            None => DEFAULT_INTERVAL,
        }
    }

    /// Every field a search query reads is present, and at least one
    /// collection tag is configured.
    pub open spec fn search_ready(self) -> bool {
        &&& self.collections matches Some(c) && c@.len() > 0
        &&& self.categories matches Some(cat) && cat.complete()
        &&& self.purity matches Some(p) && p.complete()
    }

    /// Whether this snapshot can start a search: the check callers make
    /// before `changer::Changer::start`.
    pub fn is_search_ready(&self) -> (r: bool)
        ensures
            r == self.search_ready(),
    {
        let collections_ok = match self.collections.as_ref() {
            Some(c) => c.len() > 0,
            None => false,
        };
        let categories_ok = match self.categories.as_ref() {
            Some(c) => c.general.is_some() && c.anime.is_some() && c.people.is_some(),
            None => false,
        };
        let purity_ok = match self.purity.as_ref() {
            Some(p) => p.sfw.is_some() && p.sketchy.is_some() && p.nsfw.is_some(),
            None => false,
        };
        collections_ok && categories_ok && purity_ok
    }

    /// The configured poll interval as a duration.
    pub fn get_interval(&self) -> (r: Duration)
        requires
            self.minutes_or_default() * 60 <= u64::MAX,
        ensures
            duration_secs(r) == self.minutes_or_default() * 60,
    {
        Duration::from_secs(self.interval.unwrap_or(DEFAULT_INTERVAL) * 60)
    }

    /// The configured poll interval as a duration, or nothing when the
    /// configured number of minutes is too large to count in seconds.
    pub fn try_get_interval(&self) -> (r: Option<Duration>)
        ensures
            match r {
                Some(d) => self.minutes_or_default() * 60 <= u64::MAX && duration_secs(d)
                    == self.minutes_or_default() * 60,
                None => self.minutes_or_default() * 60 > u64::MAX,
            },
    {
        let m = self.interval.unwrap_or(DEFAULT_INTERVAL);
        if m <= u64::MAX / 60 {
            Some(Duration::from_secs(m * 60))
        } else {
            None
        }
    }

    /// Stores the poll interval, in whole minutes of the given duration.
    pub fn set_interval(&mut self, interval: Duration)
        ensures
            final(self).interval == Some(duration_secs(interval) / 60),
            final(self).collections == old(self).collections,
            final(self).orientation == old(self).orientation,
            final(self).image_resolution == old(self).image_resolution,
            final(self).api_key == old(self).api_key,
            final(self).categories == old(self).categories,
            final(self).purity == old(self).purity,
    {
        self.interval = Some(interval.as_secs() / 60);
    }
}

impl Default for Config {
    /// The snapshot used when no configuration file sets a value.
    fn default() -> (c: Self)
        ensures
            c.collections matches Some(v) && v@.len() == 1 && v@[0]@ == "@arkas"@,
            c.interval == Some(DEFAULT_INTERVAL),
            c.orientation == Some(Orientation::Landscape),
            c.image_resolution matches Some(r) && r@
                == Orientation::Landscape.image_resolution_spec(),
            c.api_key is None,
            c.categories == Some(
                Categories { general: Some(false), anime: Some(true), people: Some(false) },
            ),
            c.purity == Some(Purity { sfw: Some(true), sketchy: Some(false), nsfw: Some(false) }),
            c.search_ready(),
    {
        let orientation = Orientation::Landscape;
        Config {
            collections: Some(vec!["@arkas".to_owned()]),
            interval: Some(DEFAULT_INTERVAL),
            orientation: Some(orientation),
            image_resolution: Some(orientation.get_image_resolution().to_owned()),
            api_key: None,
            categories: Some(Categories::default()),
            purity: Some(Purity::default()),
        }
    }
}

} // verus!
