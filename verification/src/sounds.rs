//! The sounds of one player, by category.

use crate::click_type::{preferred_is_a_permutation, ClickType};
use crate::random::choose_from;
use rand::thread_rng;
use vstd::prelude::*;

verus! {

/// Handle of a decoded sound. The host decodes audio files and keeps the audio
/// data; the engine holds and hands back only the handle.
#[derive(Clone, Copy, Debug, PartialEq, Eq, Structural)]
pub struct SoundWrapper {
    pub id: usize,
}

/// What a [`Sounds`] holds: for each category the sounds in the order in which they
/// were loaded.
pub struct SoundsView {
    pub hardclicks: Seq<SoundWrapper>,
    pub hardreleases: Seq<SoundWrapper>,
    pub clicks: Seq<SoundWrapper>,
    pub releases: Seq<SoundWrapper>,
    pub softclicks: Seq<SoundWrapper>,
    pub softreleases: Seq<SoundWrapper>,
    pub microclicks: Seq<SoundWrapper>,
    pub microreleases: Seq<SoundWrapper>,
}

impl SoundsView {
    pub open spec fn empty() -> SoundsView {
        SoundsView {
            hardclicks: Seq::empty(),
            hardreleases: Seq::empty(),
            clicks: Seq::empty(),
            releases: Seq::empty(),
            softclicks: Seq::empty(),
            softreleases: Seq::empty(),
            microclicks: Seq::empty(),
            microreleases: Seq::empty(),
        }
    }

    /// The sounds of one category; the sentinel has none.
    pub open spec fn category(self, typ: ClickType) -> Seq<SoundWrapper> {
        match typ {
            ClickType::HardClick => self.hardclicks,
            ClickType::HardRelease => self.hardreleases,
            ClickType::Click => self.clicks,
            ClickType::Release => self.releases,
            ClickType::SoftClick => self.softclicks,
            ClickType::SoftRelease => self.softreleases,
            ClickType::MicroClick => self.microclicks,
            ClickType::MicroRelease => self.microreleases,
            ClickType::NoClick => Seq::empty(),
        }
    }

    /// Number of sounds over all categories.
    pub open spec fn num_sounds(self) -> nat {
        self.hardclicks.len() + self.hardreleases.len() + self.clicks.len() + self.releases.len()
            + self.softclicks.len() + self.softreleases.len() + self.microclicks.len()
            + self.microreleases.len()
    }

    pub open spec fn has_sounds(self) -> bool {
        self.num_sounds() > 0
    }

    /// Each category of `self` followed by the same category of `other`.
    pub open spec fn extended_with(self, other: SoundsView) -> SoundsView {
        SoundsView {
            hardclicks: self.hardclicks + other.hardclicks,
            hardreleases: self.hardreleases + other.hardreleases,
            clicks: self.clicks + other.clicks,
            releases: self.releases + other.releases,
            softclicks: self.softclicks + other.softclicks,
            softreleases: self.softreleases + other.softreleases,
            microclicks: self.microclicks + other.microclicks,
            microreleases: self.microreleases + other.microreleases,
        }
    }

    /// The first of the first `n` categories of `order` that has a sound.
    pub open spec fn first_available(self, order: Seq<ClickType>, n: int) -> Option<ClickType>
        decreases n,
    {
        if n <= 0 {
            None
        } else {
            match self.first_available(order, n - 1) {
                Some(typ) => Some(typ),
                None => if self.category(order[n - 1]).len() > 0 {
                    Some(order[n - 1])
                } else {
                    None
                },
            }
        }
    }

    /// The category that a sound comes from when `typ` is wanted: the first in the
    /// fallback order of `typ` that has a sound.
    pub open spec fn resolved(self, typ: ClickType) -> Option<ClickType> {
        self.first_available(typ.spec_preferred(), 8)
    }
}

/// Putting two sets of sounds together adds their numbers of sounds, and the
/// result has a sound exactly if one of the two has.
pub proof fn extended_with_adds(a: SoundsView, b: SoundsView)
    ensures
        a.extended_with(b).num_sounds() == a.num_sounds() + b.num_sounds(),
        a.extended_with(b).has_sounds() == (a.has_sounds() || b.has_sounds()),
        forall|typ: ClickType|
            #[trigger] a.extended_with(b).category(typ) =~= a.category(typ) + b.category(typ),
{
}

/// What `first_available` finds has a sound, stands in `order` before `n`, and
/// nothing before it has a sound; where it finds nothing, none of the first `n` has
/// one.
pub proof fn first_available_is_first(sounds: SoundsView, order: Seq<ClickType>, n: int)
    requires
        0 <= n <= order.len(),
    ensures
        match sounds.first_available(order, n) {
            Some(typ) => exists|at: int|
                {
                    &&& 0 <= at < n
                    &&& order[at] == typ
                    &&& sounds.category(typ).len() > 0
                    &&& forall|before: int|
                        0 <= before < at ==> sounds.category(#[trigger] order[before]).len() == 0
                },
            None => forall|at: int| 0 <= at < n ==> sounds.category(#[trigger] order[at]).len() == 0,
        },
    decreases n,
{
    if n > 0 {
        first_available_is_first(sounds, order, n - 1);
        match sounds.first_available(order, n - 1) {
            Some(typ) => {
                let at = choose|at: int|
                    {
                        &&& 0 <= at < n - 1
                        &&& order[at] == typ
                        &&& sounds.category(typ).len() > 0
                        &&& forall|before: int|
                            0 <= before < at ==> sounds.category(#[trigger] order[before]).len()
                                == 0
                    };
                assert(0 <= at < n && order[at] == typ);
            },
            None => {
                if sounds.category(order[n - 1]).len() > 0 {
                    assert(0 <= n - 1 < n && order[n - 1] == order[n - 1]);
                }
            },
        }
    }
}

/// Once `first_available` has found a category, looking further finds the same.
pub proof fn first_available_extends(sounds: SoundsView, order: Seq<ClickType>, n: int, m: int)
    requires
        0 <= n <= m,
        sounds.first_available(order, n) is Some,
    ensures
        sounds.first_available(order, m) == sounds.first_available(order, n),
    decreases m - n,
{
    if n < m {
        first_available_extends(sounds, order, n, m - 1);
    }
}

/// A category that has a sound, at a place before `n`, makes `first_available` find
/// something.
pub proof fn first_available_finds(sounds: SoundsView, order: Seq<ClickType>, n: int, at: int)
    requires
        0 <= at < n <= order.len(),
        sounds.category(order[at]).len() > 0,
    ensures
        sounds.first_available(order, n) is Some,
    decreases n,
{
    if at < n - 1 {
        first_available_finds(sounds, order, n - 1, at);
    }
}

/// A set of sounds resolves every real category if and only if it has any sound at
/// all, and it never resolves the sentinel.
pub proof fn resolved_iff_has_sounds(sounds: SoundsView, typ: ClickType)
    ensures
        typ != ClickType::NoClick ==> (sounds.resolved(typ) is Some <==> sounds.has_sounds()),
        typ == ClickType::NoClick ==> sounds.resolved(typ) is None,
        sounds.resolved(typ) matches Some(from) ==> from != ClickType::NoClick
            && sounds.category(from).len() > 0,
{
    let order = typ.spec_preferred();
    first_available_is_first(sounds, order, 8);
    if typ != ClickType::NoClick && sounds.has_sounds() {
        let full = if sounds.hardclicks.len() > 0 {
            ClickType::HardClick
        } else if sounds.hardreleases.len() > 0 {
            ClickType::HardRelease
        } else if sounds.clicks.len() > 0 {
            ClickType::Click
        } else if sounds.releases.len() > 0 {
            ClickType::Release
        } else if sounds.softclicks.len() > 0 {
            ClickType::SoftClick
        } else if sounds.softreleases.len() > 0 {
            ClickType::SoftRelease
        } else if sounds.microclicks.len() > 0 {
            ClickType::MicroClick
        } else {
            ClickType::MicroRelease
        };
        assert(sounds.category(full).len() > 0);
        preferred_is_a_permutation(typ, full);
        let at = choose|i: int| 0 <= i < 8 && order[i] == full;
        first_available_finds(sounds, order, 8, at);
    }
    if typ == ClickType::NoClick {
        assert forall|at: int| 0 <= at < 8 implies sounds.category(#[trigger] order[at]).len()
            == 0 by {
            assert(order[at] == ClickType::NoClick);
        }
    }
}

/// The sounds of one player, one list for each category.
#[derive(Clone, Debug)]
pub struct Sounds {
    pub hardclicks: Vec<SoundWrapper>,
    pub hardreleases: Vec<SoundWrapper>,
    pub clicks: Vec<SoundWrapper>,
    pub releases: Vec<SoundWrapper>,
    pub softclicks: Vec<SoundWrapper>,
    pub softreleases: Vec<SoundWrapper>,
    pub microclicks: Vec<SoundWrapper>,
    pub microreleases: Vec<SoundWrapper>,
}

impl View for Sounds {
    type V = SoundsView;

    open spec fn view(&self) -> SoundsView {
        SoundsView {
            hardclicks: self.hardclicks@,
            hardreleases: self.hardreleases@,
            clicks: self.clicks@,
            releases: self.releases@,
            softclicks: self.softclicks@,
            softreleases: self.softreleases@,
            microclicks: self.microclicks@,
            microreleases: self.microreleases@,
        }
    }
}

impl Default for Sounds {
    fn default() -> (r: Sounds)
        ensures
            r@ == SoundsView::empty(),
    {
        Sounds {
            hardclicks: Vec::new(),
            hardreleases: Vec::new(),
            clicks: Vec::new(),
            releases: Vec::new(),
            softclicks: Vec::new(),
            softreleases: Vec::new(),
            microclicks: Vec::new(),
            microreleases: Vec::new(),
        }
    }
}

/// Appends the sounds of `from` to `to`.
fn append(to: &mut Vec<SoundWrapper>, from: &Vec<SoundWrapper>)
    ensures
        final(to)@ == old(to)@ + from@,
{
    let mut i: usize = 0;
    while i < from.len()
        invariant
            i <= from@.len(),
            to@ == old(to)@ + from@.take(i as int),
        decreases from@.len() - i,
    {
        to.push(from[i]);
        assert(from@.take(i + 1) == from@.take(i as int).push(from@[i as int]));
        i += 1;
    }
    assert(from@.take(i as int) == from@);
}

impl Sounds {
    /// Number of sounds over all categories.
    pub fn num_sounds(&self) -> (n: usize)
        requires
            self@.num_sounds() <= usize::MAX,
        ensures
            n == self@.num_sounds(),
    {
        self.hardclicks.len() + self.hardreleases.len() + self.clicks.len() + self.releases.len()
            + self.softclicks.len() + self.softreleases.len() + self.microclicks.len()
            + self.microreleases.len()
    }

    /// Whether any category has a sound.
    pub fn has_sounds(&self) -> (r: bool)
        ensures
            r == self@.has_sounds(),
    {
        self.hardclicks.len() > 0 || self.hardreleases.len() > 0 || self.clicks.len() > 0
            || self.releases.len() > 0 || self.softclicks.len() > 0 || self.softreleases.len() > 0
            || self.microclicks.len() > 0 || self.microreleases.len() > 0
    }

    /// The sounds of one category, `None` for the sentinel.
    pub fn category(&self, typ: ClickType) -> (list: Option<&Vec<SoundWrapper>>)
        ensures
            list is None <==> typ == ClickType::NoClick,
            list matches Some(sounds) ==> sounds@ == self@.category(typ),
    {
        match typ {
            ClickType::HardClick => Some(&self.hardclicks),
            ClickType::HardRelease => Some(&self.hardreleases),
            ClickType::Click => Some(&self.clicks),
            ClickType::Release => Some(&self.releases),
            ClickType::SoftClick => Some(&self.softclicks),
            ClickType::SoftRelease => Some(&self.softreleases),
            ClickType::MicroClick => Some(&self.microclicks),
            ClickType::MicroRelease => Some(&self.microreleases),
            ClickType::NoClick => None,
        }
    }

    /// The category that a sound for `typ` comes from: the first in the fallback
    /// order of `typ` that has a sound. A real category resolves exactly when there
    /// is any sound at all; the sentinel never resolves.
    pub fn resolve(&self, typ: ClickType) -> (from: Option<ClickType>)
        ensures
            from == self@.resolved(typ),
            typ != ClickType::NoClick ==> (from is Some <==> self@.has_sounds()),
            typ == ClickType::NoClick ==> from is None,
            from matches Some(found) ==> found != ClickType::NoClick && self@.category(
                found,
            ).len() > 0,
    {
        proof {
            resolved_iff_has_sounds(self@, typ);
        }
        let order = typ.preferred();
        let mut i: usize = 0;
        while i < 8
            invariant
                i <= 8,
                order@ == typ.spec_preferred(),
                self@.first_available(order@, i as int) is None,
            decreases 8 - i,
        {
            let candidate = order[i];
            if let Some(list) = self.category(candidate) {
                if list.len() > 0 {
                    proof {
                        let at = i as int;
                        assert(self@.first_available(order@, at + 1) == Some(candidate));
                        first_available_extends(self@, order@, at + 1, 8);
                    }
                    return Some(candidate);
                }
            }
            i += 1;
        }
        None
    }

    /// A sound for `typ`, drawn at random from the category that `typ` resolves to,
    /// with that category. `None` if `typ` does not resolve: for a real category only
    /// if there is no sound at all.
    pub fn random_sound(&self, typ: ClickType) -> (picked: Option<(SoundWrapper, ClickType)>)
        ensures
            picked is Some <==> self@.resolved(typ) is Some,
            typ != ClickType::NoClick ==> (picked is Some <==> self@.has_sounds()),
            !self@.has_sounds() ==> picked is None,
            picked matches Some((sound, from)) ==> self@.resolved(typ) == Some(from)
                && self@.category(from).contains(sound),
    {
        match self.resolve(typ) {
            None => None,
            Some(from) => {
                let list = self.category(from).unwrap();
                let mut rng = thread_rng();
                match choose_from(list, &mut rng) {
                    Some(sound) => Some((*sound, from)),
                    None => None,
                }
            },
        }
    }

    /// Appends each category of `other` to the same category of `self`.
    pub fn extend_with(&mut self, other: &Sounds)
        ensures
            final(self)@ == old(self)@.extended_with(other@),
            final(self)@.num_sounds() == old(self)@.num_sounds() + other@.num_sounds(),
            final(self)@.has_sounds() == (old(self)@.has_sounds() || other@.has_sounds()),
    {
        append(&mut self.hardclicks, &other.hardclicks);
        append(&mut self.hardreleases, &other.hardreleases);
        append(&mut self.clicks, &other.clicks);
        append(&mut self.releases, &other.releases);
        append(&mut self.softclicks, &other.softclicks);
        append(&mut self.softreleases, &other.softreleases);
        append(&mut self.microclicks, &other.microclicks);
        append(&mut self.microreleases, &other.microreleases);
    }
}

} // verus!
