//! A cache of the code pieces found in a library directory, kept from one look at
//! the directory to the next.
//!
//! A piece is read again only when its file changed. The cache reads no file
//! itself: it is told what was found and says what has to be read.

use vstd::prelude::*;
use vstd::hash_map::StringHashMap;
use crate::text::{join3, same_text};

verus! {

/// One piece of code from the library.
#[derive(Clone, Debug, PartialEq, Eq)]
pub struct Piece {
    /// The file's path within the library directory, without its extension.
    pub id: String,
    /// When the file was last changed, as the file system counts it.
    pub modified: u64,
    pub code: String,
}

pub struct PieceView {
    pub id: Seq<char>,
    pub modified: u64,
    pub code: Seq<char>,
}

impl View for Piece {
    type V = PieceView;

    open spec fn view(&self) -> PieceView {
        PieceView { id: self.id@, modified: self.modified, code: self.code@ }
    }
}

impl DeepView for Piece {
    type V = PieceView;

    open spec fn deep_view(&self) -> PieceView {
        self@
    }
}

impl Piece {
    /// A copy of this piece with the same content.
    pub fn duplicate(&self) -> (copy: Piece)
        ensures
            copy@ == self@,
    {
        Piece { id: self.id.clone(), modified: self.modified, code: self.code.clone() }
    }
}

/// Why the library cannot be used.
#[derive(Clone, Debug, PartialEq, Eq)]
pub enum LibraryError {
    /// No library directory is configured.
    NotConfigured,
    /// The configured directory does not exist.
    MissingDirectory(String),
    /// The directory holds no piece.
    Empty,
}

pub enum LibraryErrorView {
    NotConfigured,
    MissingDirectory(Seq<char>),
    Empty,
}

impl View for LibraryError {
    type V = LibraryErrorView;

    open spec fn view(&self) -> LibraryErrorView {
        match self {
            LibraryError::NotConfigured => LibraryErrorView::NotConfigured,
            LibraryError::MissingDirectory(directory) => LibraryErrorView::MissingDirectory(
                directory@,
            ),
            LibraryError::Empty => LibraryErrorView::Empty,
        }
    }
}

impl DeepView for LibraryError {
    type V = LibraryErrorView;

    open spec fn deep_view(&self) -> LibraryErrorView {
        self@
    }
}

impl LibraryErrorView {
    /// The words in which the failure is told to the user.
    pub open spec fn message(self) -> Seq<char> {
        match self {
            LibraryErrorView::NotConfigured => "library not found"@,
            LibraryErrorView::MissingDirectory(directory) => "library directory "@ + directory
                + " does not exist"@,
            LibraryErrorView::Empty => "library is empty"@,
        }
    }
}

impl LibraryError {
    /// The words in which the failure is told to the user.
    pub fn message(&self) -> (words: String)
        ensures
            words@ == self@.message(),
    {
        match self {
            LibraryError::NotConfigured => "library not found".to_owned(),
            LibraryError::MissingDirectory(directory) => join3(
                "library directory ",
                directory.as_str(),
                " does not exist",
            ),
            LibraryError::Empty => "library is empty".to_owned(),
        }
    }
}

/// What the cache holds: the directory that was looked at last, and the pieces
/// found there, each under its id.
pub struct LibraryView {
    pub directory: Seq<char>,
    pub pieces: Map<Seq<char>, PieceView>,
}

/// Every piece of the map is kept under its own id.
pub open spec fn each_under_its_id(pieces: Map<Seq<char>, PieceView>) -> bool {
    forall|id: Seq<char>| #[trigger] pieces.contains_key(id) ==> pieces[id].id == id
}

impl LibraryView {
    /// Every piece is kept under its own id.
    pub open spec fn is_keyed(self) -> bool {
        each_under_its_id(self.pieces)
    }
}

/// The pieces of a listing under their ids. Of two pieces with one id the later one stays.
pub open spec fn pieces_by_id(listing: Seq<PieceView>) -> Map<Seq<char>, PieceView>
    decreases listing.len(),
{
    if listing.len() == 0 {
        Map::empty()
    } else {
        pieces_by_id(listing.drop_last()).insert(listing.last().id, listing.last())
    }
}

/// The directory in which the library is to be looked for.
pub open spec fn directory_of(configured: Seq<char>, exists: bool) -> Result<
    Seq<char>,
    LibraryErrorView,
> {
    if configured.len() == 0 {
        Err(LibraryErrorView::NotConfigured)
    } else if !exists {
        Err(LibraryErrorView::MissingDirectory(configured))
    } else {
        Ok(configured)
    }
}

/// Whether a file with this extension holds a piece.
pub open spec fn is_piece_file(extension: Option<Seq<char>>) -> bool {
    extension == Some("cpp"@)
}

/// A file as a listing of the library directory shows it.
#[derive(Clone, Debug, PartialEq, Eq)]
pub struct FileEntry {
    /// The file's path within the library directory, without its extension.
    pub id: String,
    pub extension: Option<String>,
    /// When the file was last changed.
    pub modified: u64,
}

pub struct FileEntryView {
    pub id: Seq<char>,
    pub extension: Option<Seq<char>>,
    pub modified: u64,
}

impl View for FileEntry {
    type V = FileEntryView;

    open spec fn view(&self) -> FileEntryView {
        FileEntryView {
            id: self.id@,
            extension: self.extension.deep_view(),
            modified: self.modified,
        }
    }
}

impl DeepView for FileEntry {
    type V = FileEntryView;

    open spec fn deep_view(&self) -> FileEntryView {
        self@
    }
}

/// What a look at a listing comes to.
pub struct Scan {
    /// The cached pieces whose files did not change.
    pub reused: Vec<Piece>,
    /// The files that have to be read, in the listing's order.
    pub wanted: Vec<FileEntry>,
}

/// What a look at a listing comes to: the pieces left in the cache, the pieces
/// taken over from it, and the files to be read.
pub struct ScanView {
    pub left: Map<Seq<char>, PieceView>,
    pub reused: Seq<PieceView>,
    pub wanted: Seq<FileEntryView>,
}

/// Goes through a listing in its order. A file that holds no piece is passed over.
/// For every other file the cached piece of its id leaves the cache; it is taken
/// over where it has the file's time of change, and the file is to be read where
/// the cache had no such piece.
pub open spec fn scan_of(pieces: Map<Seq<char>, PieceView>, entries: Seq<FileEntryView>) -> ScanView
    decreases entries.len(),
{
    if entries.len() == 0 {
        ScanView { left: pieces, reused: Seq::empty(), wanted: Seq::empty() }
    } else {
        let before = scan_of(pieces, entries.drop_last());
        let entry = entries.last();
        if !is_piece_file(entry.extension) {
            before
        } else if before.left.contains_key(entry.id) && before.left[entry.id].modified
            == entry.modified {
            ScanView {
                left: before.left.remove(entry.id),
                reused: before.reused.push(before.left[entry.id]),
                wanted: before.wanted,
            }
        } else {
            ScanView {
                left: before.left.remove(entry.id),
                reused: before.reused,
                wanted: before.wanted.push(entry),
            }
        }
    }
}

/// The views of the pieces of a map.
spec fn shelf_of(pieces: Map<Seq<char>, Piece>) -> Map<Seq<char>, PieceView> {
    pieces.map_values(|piece: Piece| piece@)
}

/// Every piece of the map is kept under its own id.
spec fn keyed(pieces: Map<Seq<char>, Piece>) -> bool {
    forall|id: Seq<char>| pieces.contains_key(id) ==> (#[trigger] pieces[id])@.id == id
}

/// A scan keeps every piece under its own id, takes over only pieces that the
/// cache held under the id of a listed file, and wants only listed files.
pub proof fn lemma_scan_keeps_ids(pieces: Map<Seq<char>, PieceView>, entries: Seq<FileEntryView>)
    requires
        each_under_its_id(pieces),
    ensures
        each_under_its_id(scan_of(pieces, entries).left),
        forall|id: Seq<char>| #[trigger]
            scan_of(pieces, entries).left.contains_key(id) ==> pieces.contains_key(id) && scan_of(
                pieces,
                entries,
            ).left[id] == pieces[id],
        forall|i: int|
            0 <= i < scan_of(pieces, entries).reused.len() ==> {
                let piece = #[trigger] scan_of(pieces, entries).reused[i];
                &&& pieces.contains_key(piece.id)
                &&& pieces[piece.id] == piece
                &&& exists|k: int|
                    0 <= k < entries.len() && (#[trigger] entries[k]).id == piece.id
                        && entries[k].modified == piece.modified
            },
        forall|i: int|
            0 <= i < scan_of(pieces, entries).wanted.len() ==> {
                let file = #[trigger] scan_of(pieces, entries).wanted[i];
                exists|k: int|
                    0 <= k < entries.len() && #[trigger] entries[k] == file && is_piece_file(
                        file.extension,
                    )
            },
    decreases entries.len(),
{
    if entries.len() > 0 {
        let front = entries.drop_last();
        let before = scan_of(pieces, front);
        let after = scan_of(pieces, entries);
        let last = entries.len() - 1;
        let entry = entries.last();
        lemma_scan_keeps_ids(pieces, front);
        assert(entries[last] == entry);
        assert forall|id: Seq<char>| #[trigger] after.left.contains_key(id) implies pieces.contains_key(
            id,
        ) && after.left[id] == pieces[id] by {
            assert(before.left.contains_key(id));
        }
        assert forall|id: Seq<char>| #[trigger] after.left.contains_key(id) implies after.left[id].id
            == id by {
            assert(pieces.contains_key(id));
        }
        assert forall|i: int| 0 <= i < after.reused.len() implies {
            let piece = #[trigger] after.reused[i];
            &&& pieces.contains_key(piece.id)
            &&& pieces[piece.id] == piece
            &&& exists|k: int|
                0 <= k < entries.len() && (#[trigger] entries[k]).id == piece.id
                    && entries[k].modified == piece.modified
        } by {
            let piece = after.reused[i];
            if i < before.reused.len() {
                assert(piece == before.reused[i]);
                let k = choose|k: int|
                    0 <= k < front.len() && (#[trigger] front[k]).id == piece.id
                        && front[k].modified == piece.modified;
                assert(entries[k] == front[k]);
            } else {
                assert(before.left.contains_key(entry.id));
                assert(pieces.contains_key(entry.id));
                assert(piece == pieces[entry.id]);
                assert(entries[last].id == piece.id);
            }
        }
        assert forall|i: int| 0 <= i < after.wanted.len() implies {
            let file = #[trigger] after.wanted[i];
            exists|k: int|
                0 <= k < entries.len() && #[trigger] entries[k] == file && is_piece_file(
                    file.extension,
                )
        } by {
            let file = after.wanted[i];
            if i < before.wanted.len() {
                assert(file == before.wanted[i]);
                let k = choose|k: int|
                    0 <= k < front.len() && #[trigger] front[k] == file && is_piece_file(
                        file.extension,
                    );
                assert(entries[k] == front[k]);
            } else {
                assert(entries[last] == file);
            }
        }
    }
}

/// A listing put under its ids keeps every piece under its own id.
pub proof fn lemma_pieces_by_id_keyed(listing: Seq<PieceView>)
    ensures
        each_under_its_id(pieces_by_id(listing)),
    decreases listing.len(),
{
    if listing.len() > 0 {
        lemma_pieces_by_id_keyed(listing.drop_last());
        let front = pieces_by_id(listing.drop_last());
        assert forall|id: Seq<char>| #[trigger]
            pieces_by_id(listing).contains_key(id) implies pieces_by_id(listing)[id].id == id by {
            if id != listing.last().id {
                assert(front.contains_key(id));
            }
        }
    }
}

/// The pieces of the library directory as they were found last.
pub struct LibraryCache {
    directory: String,
    pieces: StringHashMap<Piece>,
}

impl View for LibraryCache {
    type V = LibraryView;

    closed spec fn view(&self) -> LibraryView {
        LibraryView { directory: self.directory@, pieces: shelf_of(self.pieces@) }
    }
}

impl LibraryCache {
    #[verifier::type_invariant]
    spec fn pieces_are_keyed(self) -> bool {
        keyed(self.pieces@)
    }

    /// A cache that has seen no directory yet.
    pub fn new() -> (cache: LibraryCache)
        ensures
            cache@.directory == Seq::<char>::empty(),
            cache@.pieces == Map::<Seq<char>, PieceView>::empty(),
    {
        let cache = LibraryCache { directory: String::new(), pieces: StringHashMap::new() };
        assert(cache@.pieces =~= Map::<Seq<char>, PieceView>::empty());
        cache
    }

    /// The directory in which to look for the library. `configured` is the
    /// directory that the user set, `exists` whether there is such a directory.
    /// Nothing set fails as `NotConfigured`, whatever `exists` says; a directory
    /// that is not there fails as `MissingDirectory`.
    pub fn get_directory(&self, configured: &str, exists: bool) -> (directory: Result<
        String,
        LibraryError,
    >)
        ensures
            match directory {
                Ok(found) => directory_of(configured@, exists) == Ok::<Seq<char>, LibraryErrorView>(
                    found@,
                ),
                Err(error) => directory_of(configured@, exists) == Err::<
                    Seq<char>,
                    LibraryErrorView,
                >(error@),
            },
    {
        let unset = same_text(configured, "");
        proof {
            reveal_strlit("");
            assert(unset == (configured@.len() == 0)) by {
                if configured@.len() == 0 {
                    assert(configured@ =~= ""@);
                }
            }
        }
        if unset {
            Err(LibraryError::NotConfigured)
        } else if !exists {
            Err(LibraryError::MissingDirectory(configured.to_owned()))
        } else {
            Ok(configured.to_owned())
        }
    }

    /// Whether a file with this extension holds a piece: only `cpp` files do.
    pub fn is_piece_file(&self, extension: Option<&str>) -> (wanted: bool)
        ensures
            wanted == is_piece_file(extension.deep_view()),
    {
        match extension {
            Some(extension) => same_text(extension, "cpp"),
            None => false,
        }
    }

    /// Prepares the cache for a look at `directory`. What was found in another
    /// directory is of no use there, and is forgotten; what was found in the same
    /// directory stays.
    pub fn enter(&mut self, directory: &str)
        ensures
            final(self)@.is_keyed(),
            final(self)@.directory == old(self)@.directory,
            final(self)@.pieces == (if directory@ == old(self)@.directory {
                old(self)@.pieces
            } else {
                Map::<Seq<char>, PieceView>::empty()
            }),
    {
        proof {
            use_type_invariant(&*self);
        }
        if !same_text(self.directory.as_str(), directory) {
            let none: StringHashMap<Piece> = StringHashMap::new();
            assert(shelf_of(none@) =~= Map::<Seq<char>, PieceView>::empty());
            self.pieces = none;
        }
    }

    /// Takes the piece `id` out of the cache and tells whether it can stand for the
    /// file as it is now. The result is the cached piece where the cache had it
    /// with the same time of change; otherwise `None`, and the file has to be read.
    /// Either way the cache no longer holds a piece under `id`. A piece that comes
    /// out has the id under which it was asked for.
    pub fn maybe_load_piece(&mut self, id: &str, modified: u64) -> (fresh: Option<Piece>)
        ensures
            old(self)@.is_keyed(),
            final(self)@.is_keyed(),
            final(self)@.directory == old(self)@.directory,
            final(self)@.pieces == old(self)@.pieces.remove(id@),
            fresh.deep_view() == (if old(self)@.pieces.contains_key(id@) && old(
                self,
            )@.pieces[id@].modified == modified {
                Some(old(self)@.pieces[id@])
            } else {
                None
            }),
            fresh matches Some(piece) ==> piece@.id == id@ && piece@.modified == modified,
    {
        proof {
            use_type_invariant(&*self);
        }
        let ghost before = self.pieces@;
        let cached = match self.pieces.get(id) {
            Some(piece) => Some(piece.duplicate()),
            None => None,
        };
        let mut pieces: StringHashMap<Piece> = StringHashMap::new();
        core::mem::swap(&mut self.pieces, &mut pieces);
        pieces.remove(id);
        assert(shelf_of(pieces@) =~= shelf_of(before).remove(id@));
        self.pieces = pieces;
        match cached {
            Some(piece) => {
                if piece.modified == modified {
                    Some(piece)
                } else {
                    None
                }
            },
            None => None,
        }
    }

    /// Looks at a listing of `directory` and tells which cached pieces still stand
    /// and which files have to be read. What the cache held of another directory is
    /// forgotten first. Every piece that the listing names leaves the cache, to come
    /// back with `update`.
    pub fn scan(&mut self, directory: &str, entries: &Vec<FileEntry>) -> (outcome: Scan)
        ensures
            old(self)@.is_keyed(),
            final(self)@.is_keyed(),
            final(self)@.directory == old(self)@.directory,
            ({
                let start = if directory@ == old(self)@.directory {
                    old(self)@.pieces
                } else {
                    Map::<Seq<char>, PieceView>::empty()
                };
                let expected = scan_of(start, entries.deep_view());
                &&& final(self)@.pieces == expected.left
                &&& outcome.reused.deep_view() == expected.reused
                &&& outcome.wanted.deep_view() == expected.wanted
            }),
    {
        proof {
            use_type_invariant(&*self);
        }
        self.enter(directory);
        let ghost start = self@.pieces;
        let ghost listing = entries.deep_view();
        let ghost kept = self@.directory;
        let mut reused: Vec<Piece> = Vec::new();
        let mut wanted: Vec<FileEntry> = Vec::new();
        let mut i: usize = 0;
        assert(listing.take(0) =~= Seq::<FileEntryView>::empty());
        assert(reused.deep_view() =~= Seq::<PieceView>::empty());
        assert(wanted.deep_view() =~= Seq::<FileEntryView>::empty());
        while i < entries.len()
            invariant
                i <= entries.len(),
                listing == entries.deep_view(),
                self@.directory == kept,
                self@.pieces == scan_of(start, listing.take(i as int)).left,
                reused.deep_view() == scan_of(start, listing.take(i as int)).reused,
                wanted.deep_view() == scan_of(start, listing.take(i as int)).wanted,
            decreases entries.len() - i,
        {
            let entry = &entries[i];
            proof {
                assert(listing[i as int] == entry@);
                assert(listing.take(i + 1).drop_last() =~= listing.take(i as int));
                assert(listing.take(i + 1).last() == entry@);
            }
            let ghost reused_before = reused.deep_view();
            let ghost wanted_before = wanted.deep_view();
            let holds_piece = match &entry.extension {
                Some(extension) => same_text(extension.as_str(), "cpp"),
                None => false,
            };
            if holds_piece {
                match self.maybe_load_piece(entry.id.as_str(), entry.modified) {
                    Some(piece) => {
                        reused.push(piece);
                        assert(reused.deep_view() =~= reused_before.push(piece@));
                    },
                    None => {
                        let copy = FileEntry {
                            id: entry.id.clone(),
                            extension: Some("cpp".to_owned()),
                            modified: entry.modified,
                        };
                        wanted.push(copy);
                        assert(wanted.deep_view() =~= wanted_before.push(entry@));
                    },
                }
            }
            i = i + 1;
        }
        assert(listing.take(entries.len() as int) =~= listing);
        proof {
            use_type_invariant(&*self);
        }
        Scan { reused, wanted }
    }

    /// Replaces what the cache holds by what was found in `directory`: the pieces
    /// of `found`, each under its id. A directory without pieces fails as `Empty`;
    /// the cache then holds the directory with no piece.
    pub fn update(&mut self, directory: String, found: Vec<Piece>) -> (done: Result<
        (),
        LibraryError,
    >)
        ensures
            final(self)@.is_keyed(),
            final(self)@.directory == directory@,
            final(self)@.pieces == pieces_by_id(found.deep_view()),
            match done {
                Ok(()) => found@.len() > 0,
                Err(error) => found@.len() == 0 && error@ == LibraryErrorView::Empty,
            },
    {
        let ghost listing = found.deep_view();
        let mut found = found;
        let count = found.len();
        let mut pieces: StringHashMap<Piece> = StringHashMap::new();
        let mut rest: Vec<Piece> = Vec::new();
        // Pieces can only be taken from the end: turn the listing over first.
        while found.len() > 0
            invariant
                found@.len() + rest@.len() == count,
                count == listing.len(),
                forall|j: int| 0 <= j < found@.len() ==> (#[trigger] found@[j])@ == listing[j],
                forall|j: int|
                    0 <= j < rest@.len() ==> (#[trigger] rest@[j])@ == listing[count - 1 - j],
            decreases found@.len(),
        {
            let piece = found.pop().unwrap();
            rest.push(piece);
        }
        assert(shelf_of(pieces@) =~= pieces_by_id(listing.take(0))) by {
            assert(listing.take(0).len() == 0);
        }
        while rest.len() > 0
            invariant
                rest@.len() <= count,
                count == listing.len(),
                forall|j: int|
                    0 <= j < rest@.len() ==> (#[trigger] rest@[j])@ == listing[count - 1 - j],
                keyed(pieces@),
                shelf_of(pieces@) == pieces_by_id(listing.take(count - rest@.len())),
            decreases rest@.len(),
        {
            let ghost k = count - rest@.len();
            let ghost held = pieces@;
            let piece = rest.pop().unwrap();
            assert(piece@ == listing[k]);
            let id = piece.id.clone();
            pieces.insert(id, piece);
            proof {
                assert(listing.take(k + 1).drop_last() =~= listing.take(k));
                assert(listing.take(k + 1).last() == listing[k]);
                assert(shelf_of(pieces@) =~= shelf_of(held).insert(listing[k].id, listing[k]));
            }
        }
        assert(listing.take(count as int) =~= listing);
        proof {
            use_type_invariant(&*self);
        }
        self.directory = directory;
        self.pieces = pieces;
        if count == 0 {
            Err(LibraryError::Empty)
        } else {
            Ok(())
        }
    }

    /// Whether the cache holds a piece under `id`.
    pub fn contains(&self, id: &str) -> (held: bool)
        ensures
            held == self@.pieces.contains_key(id@),
    {
        self.pieces.contains_key(id)
    }

    /// Whether the cache holds no piece.
    pub fn is_empty(&self) -> (empty: bool)
        ensures
            empty == (self@.pieces == Map::<Seq<char>, PieceView>::empty()),
    {
        let empty = self.pieces.is_empty();
        proof {
            if empty {
                assert(self@.pieces =~= Map::<Seq<char>, PieceView>::empty());
            } else {
                let id = choose|id: Seq<char>| self.pieces@.dom().contains(id);
                assert(self@.pieces.contains_key(id));
            }
        }
        empty
    }

    /// The directory that was looked at last.
    pub fn directory(&self) -> (directory: &str)
        ensures
            directory@ == self@.directory,
    {
        self.directory.as_str()
    }
}

} // verus!
