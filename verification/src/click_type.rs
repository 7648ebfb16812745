//! Click categories: classification of time gaps and the fallback order between
//! categories.

use vstd::prelude::*;

verus! {

/// Thresholds, in microseconds, that separate the four bands of time gaps.
///
/// A gap above `hard` is a hard click, one above `regular` a regular click, one above
/// `soft` a soft click, anything shorter a micro click.
#[derive(Clone, Copy, Debug, PartialEq, Eq, Structural)]
pub struct Timings {
    pub hard: u64,
    pub regular: u64,
    pub soft: u64,
}

impl Timings {
    /// The thresholds are in ascending order.
    pub open spec fn ordered(self) -> bool {
        self.soft <= self.regular <= self.hard
    }
}

impl Default for Timings {
    fn default() -> (r: Timings)
        ensures
            r == (Timings { hard: 2_000_000, regular: 150_000, soft: 25_000 }),
    {
        Timings { hard: 2_000_000, regular: 150_000, soft: 25_000 }
    }
}

/// Category of a click sound: four bands of loudness, each for a press and a release,
/// and `NoClick` for "no event yet".
#[derive(Clone, Copy, Debug, PartialEq, Eq, Structural)]
pub enum ClickType {
    HardClick,
    HardRelease,
    Click,
    Release,
    SoftClick,
    SoftRelease,
    MicroClick,
    MicroRelease,
    NoClick,
}

impl Default for ClickType {
    fn default() -> (r: ClickType)
        ensures
            r == ClickType::NoClick,
    {
        ClickType::NoClick
    }
}

impl ClickType {
    /// Loudness band of a category: 0 for micro up to 3 for hard.
    pub open spec fn band(self) -> nat {
        match self {
            ClickType::HardClick | ClickType::HardRelease => 3,
            ClickType::Click | ClickType::Release => 2,
            ClickType::SoftClick | ClickType::SoftRelease => 1,
            _ => 0,
        }
    }

    pub open spec fn spec_is_release(self) -> bool {
        self == ClickType::HardRelease || self == ClickType::Release || self
            == ClickType::SoftRelease || self == ClickType::MicroRelease
    }

    /// The category of the same band for the other action.
    pub open spec fn opposite(self) -> ClickType {
        match self {
            ClickType::HardClick => ClickType::HardRelease,
            ClickType::HardRelease => ClickType::HardClick,
            ClickType::Click => ClickType::Release,
            ClickType::Release => ClickType::Click,
            ClickType::SoftClick => ClickType::SoftRelease,
            ClickType::SoftRelease => ClickType::SoftClick,
            ClickType::MicroClick => ClickType::MicroRelease,
            ClickType::MicroRelease => ClickType::MicroClick,
            ClickType::NoClick => ClickType::NoClick,
        }
    }

    /// Category of an event that comes `time` microseconds after the previous one.
    pub open spec fn spec_from_time(push: bool, time: u64, timings: Timings) -> ClickType {
        if time > timings.hard {
            if push {
                ClickType::HardClick
            } else {
                ClickType::HardRelease
            }
        } else if time > timings.regular {
            if push {
                ClickType::Click
            } else {
                ClickType::Release
            }
        } else if time > timings.soft {
            if push {
                ClickType::SoftClick
            } else {
                ClickType::SoftRelease
            }
        } else if push {
            ClickType::MicroClick
        } else {
            ClickType::MicroRelease
        }
    }

    /// Classifies an event by the time since the previous one.
    pub fn from_time(push: bool, time: u64, timings: &Timings) -> (r: ClickType)
        ensures
            r == Self::spec_from_time(push, time, *timings),
            r != ClickType::NoClick,
            r.spec_is_release() == !push,
    {
        if time > timings.hard {
            if push {
                ClickType::HardClick
            } else {
                ClickType::HardRelease
            }
        } else if time > timings.regular {
            if push {
                ClickType::Click
            } else {
                ClickType::Release
            }
        } else if time > timings.soft {
            if push {
                ClickType::SoftClick
            } else {
                ClickType::SoftRelease
            }
        } else if push {
            ClickType::MicroClick
        } else {
            ClickType::MicroRelease
        }
    }

    /// The order in which categories are tried when a sound of category `self` is
    /// wanted: the category itself, then the other bands of the same action from the
    /// nearest one on, then the same four bands of the other action.
    pub open spec fn spec_preferred(self) -> Seq<ClickType> {
        match self {
            ClickType::HardClick => seq![
                ClickType::HardClick,
                ClickType::Click,
                ClickType::SoftClick,
                ClickType::MicroClick,
                ClickType::HardRelease,
                ClickType::Release,
                ClickType::SoftRelease,
                ClickType::MicroRelease,
            ],
            ClickType::HardRelease => seq![
                ClickType::HardRelease,
                ClickType::Release,
                ClickType::SoftRelease,
                ClickType::MicroRelease,
                ClickType::HardClick,
                ClickType::Click,
                ClickType::SoftClick,
                ClickType::MicroClick,
            ],
            ClickType::Click => seq![
                ClickType::Click,
                ClickType::HardClick,
                ClickType::SoftClick,
                ClickType::MicroClick,
                ClickType::Release,
                ClickType::HardRelease,
                ClickType::SoftRelease,
                ClickType::MicroRelease,
            ],
            ClickType::Release => seq![
                ClickType::Release,
                ClickType::HardRelease,
                ClickType::SoftRelease,
                ClickType::MicroRelease,
                ClickType::Click,
                ClickType::HardClick,
                ClickType::SoftClick,
                ClickType::MicroClick,
            ],
            ClickType::SoftClick => seq![
                ClickType::SoftClick,
                ClickType::MicroClick,
                ClickType::Click,
                ClickType::HardClick,
                ClickType::SoftRelease,
                ClickType::MicroRelease,
                ClickType::Release,
                ClickType::HardRelease,
            ],
            ClickType::SoftRelease => seq![
                ClickType::SoftRelease,
                ClickType::MicroRelease,
                ClickType::Release,
                ClickType::HardRelease,
                ClickType::SoftClick,
                ClickType::MicroClick,
                ClickType::Click,
                ClickType::HardClick,
            ],
            ClickType::MicroClick => seq![
                ClickType::MicroClick,
                ClickType::SoftClick,
                ClickType::Click,
                ClickType::HardClick,
                ClickType::MicroRelease,
                ClickType::SoftRelease,
                ClickType::Release,
                ClickType::HardRelease,
            ],
            ClickType::MicroRelease => seq![
                ClickType::MicroRelease,
                ClickType::SoftRelease,
                ClickType::Release,
                ClickType::HardRelease,
                ClickType::MicroClick,
                ClickType::SoftClick,
                ClickType::Click,
                ClickType::HardClick,
            ],
            ClickType::NoClick => seq![
                ClickType::NoClick,
                ClickType::NoClick,
                ClickType::NoClick,
                ClickType::NoClick,
                ClickType::NoClick,
                ClickType::NoClick,
                ClickType::NoClick,
                ClickType::NoClick,
            ],
        }
    }

    /// The fallback order for a wanted category. It starts with the category itself;
    /// for `NoClick` it holds nothing but `NoClick`.
    pub fn preferred(self) -> (order: [ClickType; 8])
        ensures
            order@ == self.spec_preferred(),
            order@[0] == self,
            self == ClickType::NoClick ==> forall|i: int|
                0 <= i < 8 ==> order@[i] == ClickType::NoClick,
    {
        let order = match self {
            ClickType::HardClick => [
                ClickType::HardClick,
                ClickType::Click,
                ClickType::SoftClick,
                ClickType::MicroClick,
                ClickType::HardRelease,
                ClickType::Release,
                ClickType::SoftRelease,
                ClickType::MicroRelease,
            ],
            ClickType::HardRelease => [
                ClickType::HardRelease,
                ClickType::Release,
                ClickType::SoftRelease,
                ClickType::MicroRelease,
                ClickType::HardClick,
                ClickType::Click,
                ClickType::SoftClick,
                ClickType::MicroClick,
            ],
            ClickType::Click => [
                ClickType::Click,
                ClickType::HardClick,
                ClickType::SoftClick,
                ClickType::MicroClick,
                ClickType::Release,
                ClickType::HardRelease,
                ClickType::SoftRelease,
                ClickType::MicroRelease,
            ],
            ClickType::Release => [
                ClickType::Release,
                ClickType::HardRelease,
                ClickType::SoftRelease,
                ClickType::MicroRelease,
                ClickType::Click,
                ClickType::HardClick,
                ClickType::SoftClick,
                ClickType::MicroClick,
            ],
            ClickType::SoftClick => [
                ClickType::SoftClick,
                ClickType::MicroClick,
                ClickType::Click,
                ClickType::HardClick,
                ClickType::SoftRelease,
                ClickType::MicroRelease,
                ClickType::Release,
                ClickType::HardRelease,
            ],
            ClickType::SoftRelease => [
                ClickType::SoftRelease,
                ClickType::MicroRelease,
                ClickType::Release,
                ClickType::HardRelease,
                ClickType::SoftClick,
                ClickType::MicroClick,
                ClickType::Click,
                ClickType::HardClick,
            ],
            ClickType::MicroClick => [
                ClickType::MicroClick,
                ClickType::SoftClick,
                ClickType::Click,
                ClickType::HardClick,
                ClickType::MicroRelease,
                ClickType::SoftRelease,
                ClickType::Release,
                ClickType::HardRelease,
            ],
            ClickType::MicroRelease => [
                ClickType::MicroRelease,
                ClickType::SoftRelease,
                ClickType::Release,
                ClickType::HardRelease,
                ClickType::MicroClick,
                ClickType::SoftClick,
                ClickType::Click,
                ClickType::HardClick,
            ],
            ClickType::NoClick => [
                ClickType::NoClick,
                ClickType::NoClick,
                ClickType::NoClick,
                ClickType::NoClick,
                ClickType::NoClick,
                ClickType::NoClick,
                ClickType::NoClick,
                ClickType::NoClick,
            ],
        };
        assert(order@ =~= self.spec_preferred());
        order
    }

    /// The eight real categories, hard before regular before soft before micro, and
    /// in each band the press before the release.
    pub open spec fn spec_all() -> Seq<ClickType> {
        seq![
            ClickType::HardClick,
            ClickType::HardRelease,
            ClickType::Click,
            ClickType::Release,
            ClickType::SoftClick,
            ClickType::SoftRelease,
            ClickType::MicroClick,
            ClickType::MicroRelease,
        ]
    }

    /// The eight real categories, see [`Self::spec_all`].
    pub fn all() -> (categories: [ClickType; 8])
        ensures
            categories@ == Self::spec_all(),
    {
        let categories = [
            ClickType::HardClick,
            ClickType::HardRelease,
            ClickType::Click,
            ClickType::Release,
            ClickType::SoftClick,
            ClickType::SoftRelease,
            ClickType::MicroClick,
            ClickType::MicroRelease,
        ];
        assert(categories@ =~= Self::spec_all());
        categories
    }

    /// Name of the directory that holds the sounds of a category within the
    /// directory of a player.
    pub open spec fn spec_dirname(self) -> Option<Seq<char>> {
        match self {
            ClickType::HardClick => Some("hardclicks"@),
            ClickType::HardRelease => Some("hardreleases"@),
            ClickType::Click => Some("clicks"@),
            ClickType::Release => Some("releases"@),
            ClickType::SoftClick => Some("softclicks"@),
            ClickType::SoftRelease => Some("softreleases"@),
            ClickType::MicroClick => Some("microclicks"@),
            ClickType::MicroRelease => Some("microreleases"@),
            ClickType::NoClick => None,
        }
    }

    /// Name of the directory of a category; the sentinel has none.
    pub fn dirname(self) -> (name: Option<&'static str>)
        ensures
            name is Some <==> self != ClickType::NoClick,
            match name {
                Some(text) => self.spec_dirname() == Some(text@),
                None => self.spec_dirname() is None,
            },
    {
        match self {
            ClickType::HardClick => Some("hardclicks"),
            ClickType::HardRelease => Some("hardreleases"),
            ClickType::Click => Some("clicks"),
            ClickType::Release => Some("releases"),
            ClickType::SoftClick => Some("softclicks"),
            ClickType::SoftRelease => Some("softreleases"),
            ClickType::MicroClick => Some("microclicks"),
            ClickType::MicroRelease => Some("microreleases"),
            ClickType::NoClick => None,
        }
    }

    /// Whether the category belongs to a release.
    pub fn is_release(self) -> (r: bool)
        ensures
            r == self.spec_is_release(),
    {
        matches!(
            self,
            ClickType::HardRelease | ClickType::Release | ClickType::SoftRelease
                | ClickType::MicroRelease
        )
    }
}

/// A longer gap never gives a lighter category: for one action and one set of
/// thresholds, the band of the category grows with the time since the previous
/// event. This holds whether or not the thresholds are in ascending order.
pub proof fn from_time_is_monotonic(push: bool, shorter: u64, longer: u64, timings: Timings)
    requires
        shorter <= longer,
    ensures
        ClickType::spec_from_time(push, shorter, timings).band() <= ClickType::spec_from_time(
            push,
            longer,
            timings,
        ).band(),
        ClickType::spec_from_time(push, shorter, timings).spec_is_release()
            == ClickType::spec_from_time(push, longer, timings).spec_is_release(),
{
}

/// With thresholds in ascending order the band of a gap is the number of thresholds
/// that the gap exceeds.
pub proof fn from_time_counts_thresholds(push: bool, time: u64, timings: Timings)
    requires
        timings.ordered(),
    ensures
        ClickType::spec_from_time(push, time, timings).band() == (if time > timings.soft {
            1nat
        } else {
            0nat
        }) + (if time > timings.regular {
            1nat
        } else {
            0nat
        }) + (if time > timings.hard {
            1nat
        } else {
            0nat
        }),
{
}

/// The fallback order of a real category starts with the category itself, holds each
/// of the eight real categories exactly once, and tries all four bands of the wanted
/// action before any band of the other action.
pub proof fn preferred_is_a_permutation(wanted: ClickType, other: ClickType)
    requires
        wanted != ClickType::NoClick,
        other != ClickType::NoClick,
    ensures
        wanted.spec_preferred().len() == 8,
        wanted.spec_preferred()[0] == wanted,
        exists|i: int| 0 <= i < 8 && wanted.spec_preferred()[i] == other,
        forall|i: int, j: int|
            0 <= i < j < 8 ==> wanted.spec_preferred()[i] != wanted.spec_preferred()[j],
        forall|i: int|
            0 <= i < 4 ==> wanted.spec_preferred()[i].spec_is_release()
                == wanted.spec_is_release(),
        forall|i: int|
            0 <= i < 4 ==> wanted.spec_preferred()[i + 4] == wanted.spec_preferred()[i].opposite(),
{
    let order = wanted.spec_preferred();
    assert(order[0] == other || order[1] == other || order[2] == other || order[3] == other
        || order[4] == other || order[5] == other || order[6] == other || order[7] == other);
}

/// The fallback order of a release is that of the press of the same band with press
/// and release exchanged throughout, and the other way round.
pub proof fn preferred_mirrors(wanted: ClickType, i: int)
    requires
        0 <= i < 8,
    ensures
        wanted.opposite().spec_preferred()[i] == wanted.spec_preferred()[i].opposite(),
{
}

/// For the sentinel the fallback order holds the sentinel alone.
pub proof fn preferred_of_no_click(i: int)
    requires
        0 <= i < 8,
    ensures
        ClickType::NoClick.spec_preferred()[i] == ClickType::NoClick,
{
}

} // verus!
