//! File paths as the operating system spells them: a string of bytes whose
//! components are separated by `/`.

use vstd::prelude::*;
use vstd::utf8::*;

verus! {

/// The byte that separates two components of a path.
pub const SEPARATOR: u8 = 47;

/// The path that `name` denotes when it is looked up in the directory `base`:
/// an absolute name stands for itself, and a relative one is appended with one
/// separator between, unless `base` is empty or already ends in one.
pub open spec fn join(base: Seq<u8>, name: Seq<u8>) -> Seq<u8> {
    if name.len() > 0 && name[0] == SEPARATOR {
        name
    } else if base.len() == 0 || base.last() == SEPARATOR {
        base + name
    } else {
        base.push(SEPARATOR) + name
    }
}

/// Whether `name` is a single path component: it names an entry of a directory
/// and can lead neither out of it nor deeper into it.
pub open spec fn is_component(name: Seq<u8>) -> bool {
    &&& name.len() > 0
    &&& !name.contains(SEPARATOR)
    &&& !name.contains(0)
    &&& name != seq![46u8]
    &&& name != seq![46u8, 46u8]
}

/// The pieces of a path: what stands before, between and behind its separators.
pub open spec fn pieces(path: Seq<u8>) -> Seq<Seq<u8>>
    decreases path.len(),
{
    if path.len() == 0 {
        seq![Seq::empty()]
    } else {
        let front = pieces(path.drop_last());
        if path.last() == SEPARATOR {
            front.push(Seq::empty())
        } else {
            front.drop_last().push(front.last().push(path.last()))
        }
    }
}

/// The components among the pieces of a path that is not empty. The first piece
/// always counts, and is empty where the path is absolute: the component is the
/// root then. Of the others, those that are empty or `.` lead nowhere and do not
/// count.
pub open spec fn counted(pieces: Seq<Seq<u8>>) -> Seq<Seq<u8>>
    decreases pieces.len(),
{
    if pieces.len() == 0 {
        Seq::empty()
    } else if pieces.len() == 1 {
        if pieces[0].len() == 0 {
            seq![seq![SEPARATOR]]
        } else {
            pieces
        }
    } else {
        let front = counted(pieces.drop_last());
        if pieces.last().len() == 0 || pieces.last() == seq![46u8] {
            front
        } else {
            front.push(pieces.last())
        }
    }
}

/// The components of a path.
pub open spec fn components(path: Seq<u8>) -> Seq<Seq<u8>> {
    if path.len() == 0 {
        Seq::empty()
    } else {
        counted(pieces(path))
    }
}

/// Whether two paths are equal: they have the same components, however they
/// are spelled. `..` is a component like any other.
pub open spec fn same_path(a: Seq<u8>, b: Seq<u8>) -> bool {
    components(a) == components(b)
}

/// `join` under a directory that may not be known.
pub open spec fn join_known(base: Option<Seq<u8>>, name: Seq<char>) -> Option<Seq<u8>> {
    match base {
        Some(b) => Some(join(b, encode_utf8(name))),
        None => None,
    }
}

/// The view of a path that may be absent.
pub open spec fn known(path: Option<FilePath>) -> Option<Seq<u8>> {
    match path {
        Some(p) => Some(p@),
        None => None,
    }
}

/// A path of a file or directory. Its view is its spelling; `==` compares
/// components.
#[derive(Debug)]
pub struct FilePath {
    bytes: Vec<u8>,
}

impl View for FilePath {
    type V = Seq<u8>;

    closed spec fn view(&self) -> Seq<u8> {
        self.bytes@
    }
}

impl PartialEq for FilePath {
    fn eq(&self, other: &FilePath) -> (r: bool) {
        self.same(other)
    }
}

impl vstd::std_specs::cmp::PartialEqSpecImpl for FilePath {
    open spec fn obeys_eq_spec() -> bool {
        true
    }

    open spec fn eq_spec(&self, other: &FilePath) -> bool {
        same_path(self@, other@)
    }
}

impl Eq for FilePath {

}

impl Clone for FilePath {
    fn clone(&self) -> (r: Self)
        ensures
            r@ == self@,
    {
        let bytes = self.bytes.clone();
        assert(bytes@ =~= self.bytes@);
        FilePath { bytes }
    }
}

impl FilePath {
    /// The path spelled by `bytes`.
    pub fn new(bytes: Vec<u8>) -> (r: FilePath)
        ensures
            r@ == bytes@,
    {
        FilePath { bytes }
    }

    /// The path spelled by the characters of `text`.
    pub fn from_text(text: &str) -> (r: FilePath)
        ensures
            r@ == encode_utf8(text@),
    {
        FilePath { bytes: text.as_bytes_vec() }
    }

    /// The bytes that spell this path.
    pub fn as_bytes(&self) -> (r: &Vec<u8>)
        ensures
            r@ == self@,
    {
        &self.bytes
    }

    /// Whether this is the empty path, which names nothing.
    pub fn is_empty(&self) -> (r: bool)
        ensures
            r == (self@.len() == 0),
    {
        self.bytes.len() == 0
    }

    /// Whether `other` has the same components.
    pub fn same(&self, other: &FilePath) -> (r: bool)
        ensures
            r == same_path(self@, other@),
    {
        let a = components_of(&self.bytes);
        let b = components_of(&other.bytes);
        same_components(&a, &b)
    }

    /// The path of `name` in this directory.
    pub fn join(&self, name: &[u8]) -> (r: FilePath)
        ensures
            r@ == join(self@, name@),
    {
        let mut bytes: Vec<u8> = Vec::new();
        let absolute = name.len() > 0 && name[0] == SEPARATOR;
        if !absolute {
            append(&mut bytes, &self.bytes);
            if bytes.len() > 0 && bytes[bytes.len() - 1] != SEPARATOR {
                bytes.push(SEPARATOR);
            }
        }
        append(&mut bytes, name);
        assert(bytes@ =~= join(self@, name@));
        FilePath { bytes }
    }

    /// The path of the entry called `name` in this directory.
    pub fn join_text(&self, name: &str) -> (r: FilePath)
        ensures
            r@ == join(self@, encode_utf8(name@)),
    {
        self.join(name.as_bytes())
    }
}

/// Appends `more` to `bytes`.
fn append(bytes: &mut Vec<u8>, more: &[u8])
    ensures
        final(bytes)@ == old(bytes)@ + more@,
{
    bytes.extend_from_slice(more);
    assert(bytes@ =~= old(bytes)@ + more@);
}

/// The contents of a sequence of strings of bytes.
spec fn texts(list: Seq<Vec<u8>>) -> Seq<Seq<u8>> {
    list.map_values(|t: Vec<u8>| t@)
}

/// Adds the next piece of a path to its components, if it counts.
fn count_piece(
    components: &mut Vec<Vec<u8>>,
    piece: Vec<u8>,
    is_first: bool,
    Ghost(done): Ghost<Seq<Seq<u8>>>,
)
    requires
        texts(old(components)@) == counted(done),
        is_first <==> done.len() == 0,
    ensures
        texts(final(components)@) == counted(done.push(piece@)),
{
    let ghost before = components@;
    assert(done.push(piece@).drop_last() =~= done);
    if is_first {
        let first = if piece.len() == 0 {
            vec![SEPARATOR]
        } else {
            piece
        };
        components.push(first);
        assert(first@ == if piece@.len() == 0 { seq![SEPARATOR] } else { piece@ });
        assert(texts(components@) =~= seq![first@]);
        assert(done.push(piece@) =~= seq![piece@]);
    } else if piece.len() == 0 || (piece.len() == 1 && piece[0] == 46) {
        assert(piece@.len() == 1 ==> piece@ =~= seq![46u8]);
    } else {
        components.push(piece);
        assert(texts(components@) =~= texts(before).push(piece@));
    }
}

/// The components of the path that `bytes` spells.
fn components_of(bytes: &[u8]) -> (r: Vec<Vec<u8>>)
    ensures
        texts(r@) == components(bytes@),
{
    let mut out: Vec<Vec<u8>> = Vec::new();
    assert(texts(out@) =~= Seq::empty());
    if bytes.len() == 0 {
        return out;
    }
    let mut piece: Vec<u8> = Vec::new();
    let ghost mut done: Seq<Seq<u8>> = Seq::empty();
    let mut is_first = true;
    let mut i: usize = 0;
    assert(bytes@.take(0) =~= Seq::empty());
    assert(pieces(bytes@.take(0)) =~= done.push(piece@));
    while i < bytes.len()
        invariant
            i <= bytes@.len(),
            pieces(bytes@.take(i as int)) == done.push(piece@),
            texts(out@) == counted(done),
            is_first <==> done.len() == 0,
        decreases bytes@.len() - i,
    {
        let b: u8 = bytes[i];
        assert(bytes@.take(i + 1).drop_last() =~= bytes@.take(i as int));
        let ghost read = piece@;
        assert(done.push(read).drop_last() =~= done);
        if b == SEPARATOR {
            count_piece(&mut out, piece, is_first, Ghost(done));
            proof {
                done = done.push(read);
            }
            piece = Vec::new();
            is_first = false;
        } else {
            piece.push(b);
        }
        i = i + 1;
        assert(pieces(bytes@.take(i as int)) =~= done.push(piece@));
    }
    count_piece(&mut out, piece, is_first, Ghost(done));
    assert(bytes@.take(i as int) =~= bytes@);
    out
}

/// Whether two lists of components are equal.
fn same_components(a: &Vec<Vec<u8>>, b: &Vec<Vec<u8>>) -> (r: bool)
    ensures
        r == (texts(a@) == texts(b@)),
{
    assert(texts(a@).len() == a@.len() && texts(b@).len() == b@.len());
    if a.len() != b.len() {
        return false;
    }
    let mut i: usize = 0;
    while i < a.len()
        invariant
            i <= a@.len() == b@.len(),
            forall|k: int| 0 <= k < i ==> texts(a@)[k] == texts(b@)[k],
        decreases a@.len() - i,
    {
        assert(texts(a@)[i as int] == a@[i as int]@ && texts(b@)[i as int] == b@[i as int]@);
        if !same_bytes(&a[i], &b[i]) {
            return false;
        }
        i = i + 1;
    }
    assert(texts(a@) =~= texts(b@));
    true
}

/// Whether two strings of bytes are equal.
pub fn same_bytes(a: &[u8], b: &[u8]) -> (r: bool)
    ensures
        r == (a@ == b@),
{
    if a.len() != b.len() {
        return false;
    }
    assert(a@.take(b@.len() as int) =~= a@);
    starts_with(a, b)
}

/// Whether `bytes` begins with `prefix`.
pub fn starts_with(bytes: &[u8], prefix: &[u8]) -> (r: bool)
    ensures
        r == prefix@.is_prefix_of(bytes@),
{
    if bytes.len() < prefix.len() {
        return false;
    }
    let mut i: usize = 0;
    while i < prefix.len()
        invariant
            i <= prefix@.len() <= bytes@.len(),
            bytes@.take(i as int) == prefix@.take(i as int),
        decreases prefix@.len() - i,
    {
        if bytes[i] != prefix[i] {
            assert(bytes@.take(prefix@.len() as int)[i as int] != prefix@[i as int]);
            return false;
        }
        i = i + 1;
        assert(bytes@.take(i as int) =~= prefix@.take(i as int));
    }
    assert(prefix@.take(i as int) =~= prefix@);
    true
}

/// Text of more than two plain characters, none of them `/`, is the name of an
/// entry of a directory.
pub proof fn plain_text_is_component(name: Seq<char>)
    requires
        name.len() > 2,
        forall|i: int| 0 <= i < name.len() ==> '\0' < #[trigger] name[i] <= '\u{7f}' && name[i] != '/',
    ensures
        is_component(encode_utf8(name)),
{
    let bytes = encode_utf8(name);
    is_ascii_chars_encode_utf8(name);
    assert forall|i: int| 0 <= i < bytes.len() implies #[trigger] bytes[i] != SEPARATOR && bytes[i]
        != 0 by {
        assert(bytes[i] == name[i] as u8);
    }
}

/// There is always a first piece.
pub proof fn pieces_are_some(path: Seq<u8>)
    ensures
        pieces(path).len() > 0,
    decreases path.len(),
{
    if path.len() > 0 {
        pieces_are_some(path.drop_last());
    }
}

/// What follows a separator, and holds none, is a piece of its own.
proof fn pieces_of_more(base: Seq<u8>, name: Seq<u8>)
    requires
        !name.contains(SEPARATOR),
    ensures
        pieces(base + name) == pieces(base).drop_last().push(pieces(base).last() + name),
    decreases name.len(),
{
    pieces_are_some(base);
    if name.len() == 0 {
        assert(base + name =~= base);
        assert(pieces(base).last() + name =~= pieces(base).last());
        assert(pieces(base).drop_last().push(pieces(base).last()) =~= pieces(base));
    } else {
        let front = name.drop_last();
        assert(name.contains(name.last()));
        assert(!front.contains(SEPARATOR)) by {
            if front.contains(SEPARATOR) {
                let i = choose|i: int| 0 <= i < front.len() && front[i] == SEPARATOR;
                assert(name[i] == SEPARATOR);
            }
        }
        pieces_of_more(base, front);
        assert((base + name).drop_last() =~= base + front);
        assert((pieces(base).last() + front).push(name.last()) =~= pieces(base).last() + name);
        assert(pieces(base + front).drop_last() =~= pieces(base).drop_last());
    }
}

/// The path of an entry of a directory has the components of the directory, and
/// the name of the entry as one more.
pub proof fn join_adds_a_component(base: Seq<u8>, name: Seq<u8>)
    requires
        name.len() > 0,
        !name.contains(SEPARATOR),
        name != seq![46u8],
    ensures
        components(join(base, name)) == components(base).push(name),
{
    assert(name.contains(name[0]));
    let before = if base.len() == 0 || base.last() == SEPARATOR {
        base
    } else {
        base.push(SEPARATOR)
    };
    let p = join(base, name);
    assert(p == before + name);
    pieces_are_some(base);
    pieces_of_more(before, name);
    let none = Seq::<u8>::empty();
    assert(none + name =~= name);
    if base.len() == 0 {
        assert(pieces(p) =~= seq![name]);
        assert(components(p) =~= components(base).push(name));
    } else {
        pieces_are_some(base.drop_last());
        let dirs = pieces(before).drop_last();
        assert(pieces(before) =~= dirs.push(none));
        assert(dirs.push(name).drop_last() =~= dirs);
        assert(counted(pieces(p)) == counted(dirs).push(name));
        if base.last() == SEPARATOR {
            assert(dirs.push(none).drop_last() =~= dirs);
        } else {
            assert(before.drop_last() =~= base);
            assert(dirs =~= pieces(base));
        }
    }
}

/// Entries of one directory have equal paths exactly if they have the same
/// name.
pub proof fn entries_are_told_apart(base: Seq<u8>, a: Seq<u8>, b: Seq<u8>)
    requires
        is_component(a),
        is_component(b),
    ensures
        same_path(join(base, a), join(base, b)) <==> a == b,
{
    join_adds_a_component(base, a);
    join_adds_a_component(base, b);
    if same_path(join(base, a), join(base, b)) {
        assert(components(base).push(a).last() == components(base).push(b).last());
    }
}

/// The path of an entry of a directory starts with the directory and ends with
/// the name of the entry, which holds no separator: the directory is its parent.
pub proof fn join_stays_inside(base: Seq<u8>, name: Seq<u8>)
    requires
        is_component(name),
    ensures
        base.is_prefix_of(join(base, name)),
        name.is_suffix_of(join(base, name)),
        join(base, name).len() <= base.len() + 1 + name.len(),
{
    assert(name.contains(name[0]));
    let p = join(base, name);
    assert(p.subrange(0, base.len() as int) =~= base);
    assert(p.subrange(p.len() - name.len(), p.len() as int) =~= name);
}

} // verus!
