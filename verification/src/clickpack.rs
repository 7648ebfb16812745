//! Clickpacks: how the sounds of two players and a background noise are found in
//! what the host read from a directory tree.
//!
//! The host lists directories and decodes audio files; this module decides which
//! of the sounds are clicks of which category and of which player. Entries of a
//! listing are taken in the order in which the host hands them over.

use crate::click_type::ClickType;
use crate::sounds::{extended_with_adds, SoundWrapper, Sounds, SoundsView};
use vstd::prelude::*;

verus! {

/// One entry of a directory, as the host found it.
#[derive(Clone, Debug)]
pub struct DirEntry {
    /// Name of the entry within its directory.
    pub name: String,
    /// Whether the entry is a regular file.
    pub is_file: bool,
    /// The decoded sound, where the host could decode the file as audio.
    pub sound: Option<SoundWrapper>,
}

impl DirEntry {
    /// The sound that the entry gives as a click: that of a regular file that
    /// decoded.
    pub open spec fn click(self) -> Option<SoundWrapper> {
        if self.is_file {
            self.sound
        } else {
            None
        }
    }

    /// Whether the entry is a background noise: a regular file whose name starts
    /// with one of the noise prefixes.
    pub open spec fn is_noise_file(self) -> bool {
        self.is_file && is_noise_name(self.name@)
    }
}

/// Names that start with `noise`, `whitenoise`, `pcnoise` or `background`, in this
/// spelling.
pub open spec fn is_noise_name(name: Seq<char>) -> bool {
    "noise"@.is_prefix_of(name) || "whitenoise"@.is_prefix_of(name) || "pcnoise"@.is_prefix_of(
        name,
    ) || "background"@.is_prefix_of(name)
}

/// The entries of a directory, or `None` for a directory that could not be read.
pub type Listing = Option<Vec<DirEntry>>;

/// The entries of a listing; a directory that could not be read has none.
pub open spec fn entries_of(dir: Listing) -> Seq<DirEntry> {
    match dir {
        Some(entries) => entries@,
        None => Seq::empty(),
    }
}

/// The clicks among `entries`, in their order.
pub open spec fn spec_read_clicks(entries: Seq<DirEntry>) -> Seq<SoundWrapper>
    decreases entries.len(),
{
    if entries.len() == 0 {
        Seq::empty()
    } else {
        let before = spec_read_clicks(entries.drop_last());
        match entries.last().click() {
            Some(sound) => before.push(sound),
            None => before,
        }
    }
}

/// The sounds of all regular files of a directory that decoded, in the order of the
/// listing. Other entries and files that did not decode are passed over; a
/// directory that could not be read gives no sound.
pub fn read_clicks_in_directory(dir: &Listing) -> (sounds: Vec<SoundWrapper>)
    ensures
        sounds@ == spec_read_clicks(entries_of(*dir)),
{
    let mut sounds: Vec<SoundWrapper> = Vec::new();
    if let Some(entries) = dir {
        let mut i: usize = 0;
        while i < entries.len()
            invariant
                i <= entries@.len(),
                sounds@ == spec_read_clicks(entries@.take(i as int)),
            decreases entries@.len() - i,
        {
            assert(entries@.take(i + 1).drop_last() == entries@.take(i as int));
            let entry = &entries[i];
            if entry.is_file {
                if let Some(sound) = entry.sound {
                    sounds.push(sound);
                }
            }
            i += 1;
        }
        assert(entries@.take(i as int) == entries@);
    }
    sounds
}

/// Whether `name` starts with `prefix`.
pub fn starts_with(name: &str, prefix: &str) -> (r: bool)
    ensures
        r == prefix@.is_prefix_of(name@),
{
    let name_len = name.unicode_len();
    let prefix_len = prefix.unicode_len();
    if prefix_len > name_len {
        return false;
    }
    let mut i: usize = 0;
    while i < prefix_len
        invariant
            name_len == name@.len(),
            prefix_len == prefix@.len(),
            prefix_len <= name_len,
            i <= prefix_len,
            forall|j: int| 0 <= j < i ==> name@[j] == prefix@[j],
        decreases prefix_len - i,
    {
        if name.get_char(i) != prefix.get_char(i) {
            assert(name@.subrange(0, prefix@.len() as int)[i as int] != prefix@[i as int]);
            return false;
        }
        i += 1;
    }
    assert(prefix@ =~= name@.subrange(0, prefix@.len() as int));
    true
}

/// Place of the first background noise file among `entries`.
pub open spec fn first_noise_file(entries: Seq<DirEntry>) -> Option<int> {
    if exists|at: int| 0 <= at < entries.len() && (#[trigger] entries[at]).is_noise_file() {
        Some(
            choose|at: int|
                {
                    &&& 0 <= at < entries.len()
                    &&& (#[trigger] entries[at]).is_noise_file()
                    &&& forall|earlier: int|
                        0 <= earlier < at ==> !(#[trigger] entries[earlier]).is_noise_file()
                },
        )
    } else {
        None
    }
}

/// `first_noise_file` is the place `at` if a noise file stands there and none
/// stands before it.
pub proof fn first_noise_file_is(entries: Seq<DirEntry>, at: int)
    requires
        0 <= at < entries.len(),
        entries[at].is_noise_file(),
        forall|earlier: int| 0 <= earlier < at ==> !(#[trigger] entries[earlier]).is_noise_file(),
    ensures
        first_noise_file(entries) == Some(at),
{
    let first = first_noise_file(entries)->0;
    if first < at {
        assert(!entries[first].is_noise_file());
    } else if at < first {
        assert(!entries[at].is_noise_file());
    }
}

/// Place in the listing of the first background noise file of a directory: the
/// first regular file whose name starts with `noise`, `whitenoise`, `pcnoise` or
/// `background`. `None` if there is no such file or the directory could not be read.
pub fn find_noise_file(dir: &Listing) -> (found: Option<usize>)
    ensures
        match found {
            Some(at) => {
                &&& at < entries_of(*dir).len()
                &&& entries_of(*dir)[at as int].is_noise_file()
                &&& forall|before: int|
                    0 <= before < at ==> !(#[trigger] entries_of(*dir)[before]).is_noise_file()
                &&& first_noise_file(entries_of(*dir)) == Some(at as int)
            },
            None => {
                &&& forall|at: int|
                    0 <= at < entries_of(*dir).len() ==> !(#[trigger] entries_of(
                        *dir,
                    )[at]).is_noise_file()
                &&& first_noise_file(entries_of(*dir)) is None
            },
        },
{
    if let Some(entries) = dir {
        let mut i: usize = 0;
        while i < entries.len()
            invariant
                i <= entries@.len(),
                entries_of(*dir) == entries@,
                forall|before: int|
                    0 <= before < i ==> !(#[trigger] entries@[before]).is_noise_file(),
            decreases entries@.len() - i,
        {
            let entry = &entries[i];
            let name = entry.name.as_str();
            if entry.is_file && (starts_with(name, "noise") || starts_with(name, "whitenoise")
                || starts_with(name, "pcnoise") || starts_with(name, "background")) {
                proof {
                    first_noise_file_is(entries@, i as int);
                }
                return Some(i);
            }
            i += 1;
        }
    }
    None
}

/// The noise after a directory has been searched: the decoded sound of its first
/// noise file, if it has one, also where that file did not decode; else the noise
/// from before.
pub open spec fn spec_load_noise(before: Option<SoundWrapper>, entries: Seq<DirEntry>) -> Option<
    SoundWrapper,
> {
    match first_noise_file(entries) {
        Some(at) => entries[at].sound,
        None => before,
    }
}

/// Takes the background noise of a directory in place of the one found before, if
/// the directory has a noise file.
pub fn load_noise(before: Option<SoundWrapper>, dir: &Listing) -> (noise: Option<SoundWrapper>)
    ensures
        noise == spec_load_noise(before, entries_of(*dir)),
{
    match find_noise_file(dir) {
        Some(at) => match dir {
            Some(entries) => entries[at].sound,
            None => before,
        },
        None => before,
    }
}

/// What the host read of the directory of one player: the listings of the eight
/// category directories in it, and the listing of the directory itself.
#[derive(Clone, Debug)]
pub struct PackDir {
    pub hardclicks: Listing,
    pub hardreleases: Listing,
    pub clicks: Listing,
    pub releases: Listing,
    pub softclicks: Listing,
    pub softreleases: Listing,
    pub microclicks: Listing,
    pub microreleases: Listing,
    /// The entries of the directory itself.
    pub files: Listing,
}

impl PackDir {
    /// The clicks of each category directory.
    pub open spec fn categorized(self) -> SoundsView {
        SoundsView {
            hardclicks: spec_read_clicks(entries_of(self.hardclicks)),
            hardreleases: spec_read_clicks(entries_of(self.hardreleases)),
            clicks: spec_read_clicks(entries_of(self.clicks)),
            releases: spec_read_clicks(entries_of(self.releases)),
            softclicks: spec_read_clicks(entries_of(self.softclicks)),
            softreleases: spec_read_clicks(entries_of(self.softreleases)),
            microclicks: spec_read_clicks(entries_of(self.microclicks)),
            microreleases: spec_read_clicks(entries_of(self.microreleases)),
        }
    }

    /// The sounds of the directory: the clicks of its category directories, or,
    /// where these have none at all, the files of the directory itself as regular
    /// clicks.
    pub open spec fn sounds(self) -> SoundsView {
        if self.categorized().has_sounds() {
            self.categorized()
        } else {
            SoundsView {
                clicks: spec_read_clicks(entries_of(self.files)),
                ..SoundsView::empty()
            }
        }
    }

    /// The listing of the directory of one category; the sentinel has none.
    pub open spec fn listing(self, typ: ClickType) -> Listing {
        match typ {
            ClickType::HardClick => self.hardclicks,
            ClickType::HardRelease => self.hardreleases,
            ClickType::Click => self.clicks,
            ClickType::Release => self.releases,
            ClickType::SoftClick => self.softclicks,
            ClickType::SoftRelease => self.softreleases,
            ClickType::MicroClick => self.microclicks,
            ClickType::MicroRelease => self.microreleases,
            ClickType::NoClick => None,
        }
    }

    /// `self` with `listing` for the directory of the category `typ`.
    pub open spec fn with_category(self, typ: ClickType, listing: Listing) -> PackDir {
        match typ {
            ClickType::HardClick => PackDir { hardclicks: listing, ..self },
            ClickType::HardRelease => PackDir { hardreleases: listing, ..self },
            ClickType::Click => PackDir { clicks: listing, ..self },
            ClickType::Release => PackDir { releases: listing, ..self },
            ClickType::SoftClick => PackDir { softclicks: listing, ..self },
            ClickType::SoftRelease => PackDir { softreleases: listing, ..self },
            ClickType::MicroClick => PackDir { microclicks: listing, ..self },
            ClickType::MicroRelease => PackDir { microreleases: listing, ..self },
            ClickType::NoClick => self,
        }
    }

    /// Records what the host read of the directory of the category `typ`. For the
    /// sentinel nothing is recorded.
    pub fn set_category(&mut self, typ: ClickType, listing: Listing)
        ensures
            *final(self) == old(self).with_category(typ, listing),
            typ != ClickType::NoClick ==> final(self).listing(typ) == listing,
            forall|other: ClickType| other != typ ==> final(self).listing(other) == old(self).listing(other),
            final(self).files == old(self).files,
    {
        match typ {
            ClickType::HardClick => self.hardclicks = listing,
            ClickType::HardRelease => self.hardreleases = listing,
            ClickType::Click => self.clicks = listing,
            ClickType::Release => self.releases = listing,
            ClickType::SoftClick => self.softclicks = listing,
            ClickType::SoftRelease => self.softreleases = listing,
            ClickType::MicroClick => self.microclicks = listing,
            ClickType::MicroRelease => self.microreleases = listing,
            ClickType::NoClick => {},
        }
    }

    /// A directory in which nothing could be read.
    pub fn unreadable() -> (dir: PackDir)
        ensures
            dir.sounds() == SoundsView::empty(),
            dir.files is None,
            dir.hardclicks is None,
            dir.hardreleases is None,
            dir.clicks is None,
            dir.releases is None,
            dir.softclicks is None,
            dir.softreleases is None,
            dir.microclicks is None,
            dir.microreleases is None,
    {
        PackDir {
            hardclicks: None,
            hardreleases: None,
            clicks: None,
            releases: None,
            softclicks: None,
            softreleases: None,
            microclicks: None,
            microreleases: None,
            files: None,
        }
    }
}

impl Sounds {
    /// The sounds of one player's directory: the clicks of the eight category
    /// directories; if these hold no sound at all, the directory is taken as a flat
    /// clickpack and its own files are the regular clicks.
    pub fn from_path(dir: &PackDir) -> (sounds: Sounds)
        ensures
            sounds@ == dir.sounds(),
    {
        let mut sounds = Sounds {
            hardclicks: read_clicks_in_directory(&dir.hardclicks),
            hardreleases: read_clicks_in_directory(&dir.hardreleases),
            clicks: read_clicks_in_directory(&dir.clicks),
            releases: read_clicks_in_directory(&dir.releases),
            softclicks: read_clicks_in_directory(&dir.softclicks),
            softreleases: read_clicks_in_directory(&dir.softreleases),
            microclicks: read_clicks_in_directory(&dir.microclicks),
            microreleases: read_clicks_in_directory(&dir.microreleases),
        };
        if !sounds.has_sounds() {
            sounds.clicks = read_clicks_in_directory(&dir.files);
            assert(sounds@.hardclicks =~= Seq::empty() && sounds@.hardreleases =~= Seq::empty()
                && sounds@.releases =~= Seq::empty() && sounds@.softclicks =~= Seq::empty()
                && sounds@.softreleases =~= Seq::empty() && sounds@.microclicks =~= Seq::empty()
                && sounds@.microreleases =~= Seq::empty());
        }
        sounds
    }
}

/// The names under which the directories of the two players are looked for, in the
/// order in which they are tried. An empty name stands for the clickpack's own
/// directory; an empty second name means that no directory is read for the second
/// player.
pub open spec fn spec_player_dirnames() -> Seq<(Seq<char>, Seq<char>)> {
    seq![
        ("player1"@, "player2"@),
        ("player 1"@, "player 2"@),
        ("sounds1"@, "sounds2"@),
        ("sounds 1"@, "sounds 2"@),
        ("p1"@, "p2"@),
        ("1"@, "2"@),
        (""@, ""@),
    ]
}

/// The names of the directories of the two players, one pair for each naming
/// convention, see [`spec_player_dirnames`].
pub fn player_dirnames() -> (names: [(&'static str, &'static str); 7])
    ensures
        forall|i: int|
            0 <= i < 7 ==> (#[trigger] names@[i]).0@ == spec_player_dirnames()[i].0 && names@[i].1@
                == spec_player_dirnames()[i].1,
{
    let names = [
        ("player1", "player2"),
        ("player 1", "player 2"),
        ("sounds1", "sounds2"),
        ("sounds 1", "sounds 2"),
        ("p1", "p2"),
        ("1", "2"),
        ("", ""),
    ];
    names
}

/// Whether the naming convention at place `i` has a directory for the second
/// player: all but the last have.
pub open spec fn has_second_player(i: int) -> bool {
    spec_player_dirnames()[i].1.len() > 0
}

/// Only the last naming convention, the clickpack's own directory, has no directory
/// for the second player.
pub proof fn second_player_dirs(i: int)
    requires
        0 <= i < 7,
    ensures
        has_second_player(i) <==> i < 6,
{
    reveal_strlit("player2");
    reveal_strlit("player 2");
    reveal_strlit("sounds2");
    reveal_strlit("sounds 2");
    reveal_strlit("p2");
    reveal_strlit("2");
    reveal_strlit("");
}

/// What the host read of a clickpack: for each naming convention the directories
/// of the first and of the second player (the second is not looked at where the
/// convention has none), and the listing of the clickpack's own directory.
#[derive(Clone, Debug)]
pub struct ClickpackTree {
    pub players: [(PackDir, PackDir); 7],
    pub root: Listing,
}

/// The sounds of the two players and the background noise.
pub struct ClickpackView {
    pub player1: SoundsView,
    pub player2: SoundsView,
    pub noise: Option<SoundWrapper>,
}

impl ClickpackView {
    pub open spec fn has_sounds(self) -> bool {
        self.player1.has_sounds() || self.player2.has_sounds()
    }
}

impl ClickpackTree {
    /// A clickpack of which nothing could be read: the starting point for a host
    /// that fills in what it finds.
    pub fn unreadable() -> (tree: ClickpackTree)
        ensures
            tree.root is None,
            forall|i: int|
                0 <= i < 7 ==> (#[trigger] tree.players@[i]).0.sounds() == SoundsView::empty()
                    && tree.players@[i].1.sounds() == SoundsView::empty()
                    && tree.players@[i].0.files is None && tree.players@[i].1.files is None,
            !tree.loaded().has_sounds(),
    {
        let tree = ClickpackTree {
            players: [
                (PackDir::unreadable(), PackDir::unreadable()),
                (PackDir::unreadable(), PackDir::unreadable()),
                (PackDir::unreadable(), PackDir::unreadable()),
                (PackDir::unreadable(), PackDir::unreadable()),
                (PackDir::unreadable(), PackDir::unreadable()),
                (PackDir::unreadable(), PackDir::unreadable()),
                (PackDir::unreadable(), PackDir::unreadable()),
            ],
            root: None,
        };
        proof {
            loads_iff_some_directory_has_sounds(tree);
        }
        tree
    }

    /// What the first `n` naming conventions give: each adds the sounds of its
    /// directories to those of the conventions before it, and a noise file in one
    /// of its directories replaces the noise found before.
    pub open spec fn swept(self, n: int) -> ClickpackView
        decreases n,
    {
        if n <= 0 {
            ClickpackView {
                player1: SoundsView::empty(),
                player2: SoundsView::empty(),
                noise: None,
            }
        } else {
            let before = self.swept(n - 1);
            let dirs = self.players@[n - 1];
            let player1 = before.player1.extended_with(dirs.0.sounds());
            let noise = spec_load_noise(before.noise, entries_of(dirs.0.files));
            if has_second_player(n - 1) {
                ClickpackView {
                    player1,
                    player2: before.player2.extended_with(dirs.1.sounds()),
                    noise: spec_load_noise(noise, entries_of(dirs.1.files)),
                }
            } else {
                ClickpackView { player1, player2: before.player2, noise }
            }
        }
    }

    /// What the clickpack holds: the sounds of all naming conventions together,
    /// and the noise that was found last, looking last in the clickpack's own
    /// directory.
    pub open spec fn loaded(self) -> ClickpackView {
        let all = self.swept(7);
        ClickpackView { noise: spec_load_noise(all.noise, entries_of(self.root)), ..all }
    }
}

/// No naming convention loses a sound of the first player: what the first `n`
/// conventions give has a sound for the player exactly if one of them has a
/// directory with a sound for the player.
pub proof fn swept_keeps_first_player(tree: ClickpackTree, n: int)
    requires
        0 <= n <= 7,
    ensures
        tree.swept(n).player1.has_sounds() <==> exists|i: int|
            0 <= i < n && (#[trigger] tree.players@[i]).0.sounds().has_sounds(),
    decreases n,
{
    if n > 0 {
        swept_keeps_first_player(tree, n - 1);
        let before = tree.swept(n - 1).player1;
        let added = tree.players@[n - 1].0.sounds();
        extended_with_adds(before, added);
        assert(tree.swept(n).player1 == before.extended_with(added));
        if before.has_sounds() {
            let i = choose|i: int|
                0 <= i < n - 1 && (#[trigger] tree.players@[i]).0.sounds().has_sounds();
            assert(0 <= i < n && tree.players@[i].0.sounds().has_sounds());
        }
        if added.has_sounds() {
            assert(0 <= n - 1 < n && tree.players@[n - 1].0.sounds().has_sounds());
        }
    }
}

/// No naming convention loses a sound of the second player, see
/// [`swept_keeps_first_player`]. Only conventions that have a directory for the
/// second player count.
pub proof fn swept_keeps_second_player(tree: ClickpackTree, n: int)
    requires
        0 <= n <= 7,
    ensures
        tree.swept(n).player2.has_sounds() <==> exists|i: int|
            0 <= i < n && has_second_player(i) && (#[trigger] tree.players@[i]).1.sounds().has_sounds(),
    decreases n,
{
    if n > 0 {
        swept_keeps_second_player(tree, n - 1);
        let before = tree.swept(n - 1).player2;
        let added = tree.players@[n - 1].1.sounds();
        let second = has_second_player(n - 1);
        extended_with_adds(before, added);
        assert(tree.swept(n).player2 == (if second {
            before.extended_with(added)
        } else {
            before
        }));
        if before.has_sounds() {
            let i = choose|i: int|
                0 <= i < n - 1 && has_second_player(i) && (#[trigger] tree.players@[i]).1.sounds().has_sounds();
            assert(0 <= i < n && has_second_player(i) && tree.players@[i].1.sounds().has_sounds());
        }
        if second && added.has_sounds() {
            assert(0 <= n - 1 < n && has_second_player(n - 1) && tree.players@[n
                - 1].1.sounds().has_sounds());
        }
    }
}

/// A clickpack loads exactly if, under some naming convention, the directory of a
/// player has a sound. The clickpack's own directory counts for the first player
/// only, and a noise alone loads nothing.
pub proof fn loads_iff_some_directory_has_sounds(tree: ClickpackTree)
    ensures
        tree.loaded().has_sounds() <==> exists|i: int|
            0 <= i < 7 && ((#[trigger] tree.players@[i]).0.sounds().has_sounds() || (i < 6
                && tree.players@[i].1.sounds().has_sounds())),
{
    swept_keeps_first_player(tree, 7);
    swept_keeps_second_player(tree, 7);
    assert forall|i: int| 0 <= i < 7 implies (has_second_player(i) <==> i < 6) by {
        second_player_dirs(i);
    }
    if tree.loaded().has_sounds() {
        if tree.swept(7).player1.has_sounds() {
            let i = choose|i: int|
                0 <= i < 7 && (#[trigger] tree.players@[i]).0.sounds().has_sounds();
            assert(0 <= i < 7 && (tree.players@[i].0.sounds().has_sounds() || (i < 6
                && tree.players@[i].1.sounds().has_sounds())));
        } else {
            let i = choose|i: int|
                0 <= i < 7 && has_second_player(i) && (#[trigger] tree.players@[i]).1.sounds().has_sounds();
            assert(0 <= i < 7 && (tree.players@[i].0.sounds().has_sounds() || (i < 6
                && tree.players@[i].1.sounds().has_sounds())));
        }
    }
    if exists|i: int|
        0 <= i < 7 && ((#[trigger] tree.players@[i]).0.sounds().has_sounds() || (i < 6
            && tree.players@[i].1.sounds().has_sounds())) {
        let i = choose|i: int|
            0 <= i < 7 && ((#[trigger] tree.players@[i]).0.sounds().has_sounds() || (i < 6
                && tree.players@[i].1.sounds().has_sounds()));
        if tree.players@[i].0.sounds().has_sounds() {
            assert(0 <= i < 7 && tree.players@[i].0.sounds().has_sounds());
        } else {
            assert(0 <= i < 7 && has_second_player(i) && tree.players@[i].1.sounds().has_sounds());
        }
    }
}

/// The sounds of a directory are the clicks of its category directories where
/// there are any, category by category.
pub proof fn categorized_by_listing(dir: PackDir, typ: ClickType)
    requires
        typ != ClickType::NoClick,
    ensures
        dir.categorized().category(typ) == spec_read_clicks(entries_of(dir.listing(typ))),
        dir.categorized().has_sounds() ==> dir.sounds().category(typ) == spec_read_clicks(
            entries_of(dir.listing(typ)),
        ),
        !dir.categorized().has_sounds() ==> dir.sounds().category(typ) == (if typ
            == ClickType::Click {
            spec_read_clicks(entries_of(dir.files))
        } else {
            Seq::empty()
        }),
{
}

/// A directory that holds nothing but a `clicks` directory gives the clicks in it as
/// regular clicks, and no other sound.
pub proof fn only_a_clicks_directory(dir: PackDir)
    requires
        spec_read_clicks(entries_of(dir.clicks)).len() > 0,
        forall|typ: ClickType|
            typ != ClickType::Click ==> entries_of(#[trigger] dir.listing(typ)).len() == 0,
    ensures
        dir.sounds().clicks == spec_read_clicks(entries_of(dir.clicks)),
        dir.sounds().num_sounds() == spec_read_clicks(entries_of(dir.clicks)).len(),
        dir.sounds().has_sounds(),
{
    assert(entries_of(dir.listing(ClickType::HardClick)).len() == 0);
    assert(entries_of(dir.listing(ClickType::HardRelease)).len() == 0);
    assert(entries_of(dir.listing(ClickType::Release)).len() == 0);
    assert(entries_of(dir.listing(ClickType::SoftClick)).len() == 0);
    assert(entries_of(dir.listing(ClickType::SoftRelease)).len() == 0);
    assert(entries_of(dir.listing(ClickType::MicroClick)).len() == 0);
    assert(entries_of(dir.listing(ClickType::MicroRelease)).len() == 0);
}

/// A directory without any entry, in itself and in its category directories, gives
/// no sound.
pub proof fn empty_directory_has_no_sounds(dir: PackDir)
    requires
        entries_of(dir.files).len() == 0,
        forall|typ: ClickType| entries_of(#[trigger] dir.listing(typ)).len() == 0,
    ensures
        !dir.sounds().has_sounds(),
{
    assert(entries_of(dir.listing(ClickType::HardClick)).len() == 0);
    assert(entries_of(dir.listing(ClickType::HardRelease)).len() == 0);
    assert(entries_of(dir.listing(ClickType::Click)).len() == 0);
    assert(entries_of(dir.listing(ClickType::Release)).len() == 0);
    assert(entries_of(dir.listing(ClickType::SoftClick)).len() == 0);
    assert(entries_of(dir.listing(ClickType::SoftRelease)).len() == 0);
    assert(entries_of(dir.listing(ClickType::MicroClick)).len() == 0);
    assert(entries_of(dir.listing(ClickType::MicroRelease)).len() == 0);
}

/// Why a clickpack could not be loaded.
#[derive(Clone, Copy, Debug, PartialEq, Eq, Structural)]
pub enum LoadError {
    /// Neither player has a sound under any naming convention.
    NoSounds,
}

impl LoadError {
    /// The error in words.
    pub fn message(&self) -> (text: String)
        ensures
            text@ == "no sounds found in clickpack"@,
    {
        match self {
            LoadError::NoSounds => String::from_str("no sounds found in clickpack"),
        }
    }
}

/// A loaded clickpack: the sounds of the two players and the background noise.
#[derive(Clone, Debug)]
pub struct Clickpack {
    pub player1: Sounds,
    pub player2: Sounds,
    pub noise: Option<SoundWrapper>,
}

impl View for Clickpack {
    type V = ClickpackView;

    open spec fn view(&self) -> ClickpackView {
        ClickpackView { player1: self.player1@, player2: self.player2@, noise: self.noise }
    }
}

impl Clickpack {
    /// Loads a clickpack from what the host read of its directory. The sounds found
    /// under all naming conventions are put together, for each player in the order
    /// of the conventions. Fails if there is no sound for either player; a missing
    /// noise is no failure.
    pub fn load(tree: &ClickpackTree) -> (loaded: Result<Clickpack, LoadError>)
        ensures
            loaded is Ok <==> tree.loaded().has_sounds(),
            loaded matches Ok(pack) ==> pack@ == tree.loaded(),
            loaded matches Err(error) ==> error == LoadError::NoSounds,
    {
        let names = player_dirnames();
        let mut pack = Clickpack {
            player1: Sounds::default(),
            player2: Sounds::default(),
            noise: None,
        };
        let mut i: usize = 0;
        while i < 7
            invariant
                i <= 7,
                pack@ == tree.swept(i as int),
                forall|i: int|
                    0 <= i < 7 ==> (#[trigger] names@[i]).0@ == spec_player_dirnames()[i].0
                        && names@[i].1@ == spec_player_dirnames()[i].1,
            decreases 7 - i,
        {
            let dirs = &tree.players[i];
            pack.player1.extend_with(&Sounds::from_path(&dirs.0));
            pack.noise = load_noise(pack.noise, &dirs.0.files);
            if !names[i].1.is_empty() {
                pack.player2.extend_with(&Sounds::from_path(&dirs.1));
                pack.noise = load_noise(pack.noise, &dirs.1.files);
            }
            i += 1;
        }
        pack.noise = load_noise(pack.noise, &tree.root);
        if pack.player1.has_sounds() || pack.player2.has_sounds() {
            Ok(pack)
        } else {
            Err(LoadError::NoSounds)
        }
    }
}

} // verus!
