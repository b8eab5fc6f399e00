//! The loader-configuration registry: a mapping from media types to the
//! decoder executable that handles them.
//!
//! Declarations come from keyed-group configuration files.  A group named
//! `loader:<media-type>` with an `Exec` key contributes one entry; an
//! optional `ExposeBaseDir` key (`true` or `1`) lets the loader see the
//! image file's parent directory.  Spaces around a group name and around the
//! `=` of a key-value line are insignificant.  Files are processed in a
//! defined order and, for a given media type, the entry read last wins.  A
//! malformed file is skipped as a whole and never fails registry
//! construction.
//!
//! Media types and executable paths are byte strings here; the embedding
//! application converts them from and to its own path and string types.

use vstd::prelude::*;

use crate::error::Error;

verus! {

/// A media type such as `image/png`, as a byte string.
pub type MimeType = Vec<u8>;

/// One loader declaration: which executable decodes the media type, and
/// whether it may see the image file's parent directory.
#[derive(Debug)]
pub struct ImageDecoderConfig {
    pub exec_path: Vec<u8>,
    pub expose_base_dir: bool,
}

/// What a loader declaration says, as a mathematical value.
pub open spec fn entry_view(e: ImageDecoderConfig) -> (Seq<u8>, bool) {
    (e.exec_path@, e.expose_base_dir)
}

/// The mapping described by a list of declarations, the later entry winning
/// for a repeated media type.
pub open spec fn loader_map(
    entries: Seq<(MimeType, ImageDecoderConfig)>,
) -> Map<Seq<u8>, (Seq<u8>, bool)>
    decreases entries.len(),
{
    if entries.len() == 0 {
        Map::empty()
    } else {
        loader_map(entries.drop_last()).insert(
            entries.last().0@,
            entry_view(entries.last().1),
        )
    }
}

/// No two declarations carry the same media type.
pub open spec fn unique_keys(entries: Seq<(MimeType, ImageDecoderConfig)>) -> bool {
    forall|i: int, j: int|
        0 <= i < j < entries.len() ==> entries[i].0@ != entries[j].0@
}

/// The loader registry: media type to loader declaration.
#[derive(Debug)]
pub struct Config {
    image_decoders: Vec<(MimeType, ImageDecoderConfig)>,
}

impl View for Config {
    type V = Map<Seq<u8>, (Seq<u8>, bool)>;

    closed spec fn view(&self) -> Map<Seq<u8>, (Seq<u8>, bool)> {
        loader_map(self.image_decoders@)
    }
}

proof fn lemma_loader_map_not_found(entries: Seq<(MimeType, ImageDecoderConfig)>, k: Seq<u8>)
    requires
        forall|i: int| 0 <= i < entries.len() ==> entries[i].0@ != k,
    ensures
        !loader_map(entries).contains_key(k),
    decreases entries.len(),
{
    if entries.len() > 0 {
        lemma_loader_map_not_found(entries.drop_last(), k);
    }
}

proof fn lemma_loader_map_found(entries: Seq<(MimeType, ImageDecoderConfig)>, i: int)
    requires
        unique_keys(entries),
        0 <= i < entries.len(),
    ensures
        loader_map(entries).contains_key(entries[i].0@),
        loader_map(entries)[entries[i].0@] == entry_view(entries[i].1),
    decreases entries.len(),
{
    if i < entries.len() - 1 {
        lemma_loader_map_found(entries.drop_last(), i);
    }
}

proof fn lemma_loader_map_update(
    entries: Seq<(MimeType, ImageDecoderConfig)>,
    i: int,
    e: (MimeType, ImageDecoderConfig),
)
    requires
        unique_keys(entries),
        0 <= i < entries.len(),
        e.0@ == entries[i].0@,
    ensures
        loader_map(entries.update(i, e)) =~= loader_map(entries).insert(e.0@, entry_view(e.1)),
    decreases entries.len(),
{
    let upd = entries.update(i, e);
    if i == entries.len() - 1 {
        assert(upd.drop_last() =~= entries.drop_last());
    } else {
        lemma_loader_map_update(entries.drop_last(), i, e);
        assert(upd.drop_last() =~= entries.drop_last().update(i, e));
        assert(upd.last() == entries.last());
    }
}

/// Compares two byte strings for equality.
pub fn bytes_eq(a: &[u8], b: &[u8]) -> (r: bool)
    ensures
        r <==> a@ == b@,
{
    if a.len() != b.len() {
        proof {
            assert(a@.len() != b@.len());
        }
        return false;
    }
    let mut i: usize = 0;
    while i < a.len()
        invariant
            i <= a.len(),
            a@.len() == b@.len(),
            forall|k: int| 0 <= k < i ==> a@[k] == b@[k],
        decreases a.len() - i,
    {
        if a[i] != b[i] {
            return false;
        }
        i += 1;
    }
    proof {
        assert(a@ =~= b@);
    }
    true
}

impl Config {
    /// Whether the registry's internal list is consistent: one entry per
    /// media type.
    pub closed spec fn wf(&self) -> bool {
        unique_keys(self.image_decoders@)
    }

    /// An empty registry: no media type is known.
    pub fn new() -> (r: Config)
        ensures
            r.wf(),
            r@ =~= Map::<Seq<u8>, (Seq<u8>, bool)>::empty(),
    {
        Config { image_decoders: Vec::new() }
    }

    /// Adds one declaration, replacing any earlier declaration of the same
    /// media type.
    pub fn insert(&mut self, mime_type: MimeType, entry: ImageDecoderConfig)
        requires
            old(self).wf(),
        ensures
            final(self).wf(),
            final(self)@ =~= old(self)@.insert(mime_type@, entry_view(entry)),
    {
        let ghost entries0 = self.image_decoders@;
        let mut i: usize = 0;
        while i < self.image_decoders.len()
            invariant
                self.image_decoders@ == entries0,
                old(self).image_decoders@ == entries0,
                unique_keys(entries0),
                i <= entries0.len(),
                forall|k: int| 0 <= k < i ==> entries0[k].0@ != mime_type@,
            decreases entries0.len() - i,
        {
            if bytes_eq(self.image_decoders[i].0.as_slice(), mime_type.as_slice()) {
                proof {
                    lemma_loader_map_update(entries0, i as int, (mime_type, entry));
                }
                self.image_decoders[i] = (mime_type, entry);
                assert(unique_keys(self.image_decoders@));
                return;
            }
            i += 1;
        }
        proof {
            lemma_loader_map_not_found(entries0, mime_type@);
        }
        self.image_decoders.push((mime_type, entry));
        proof {
            let pushed = self.image_decoders@;
            assert(pushed.drop_last() =~= entries0);
            assert(unique_keys(pushed)) by {
                assert(forall|i: int, j: int|
                    0 <= i < j < pushed.len() ==> pushed[i].0@ != pushed[j].0@) by {
                    assert(forall|i: int| 0 <= i < entries0.len()
                        ==> #[trigger] entries0[i].0@ != mime_type@);
                }
            }
            assert(loader_map(pushed) =~= loader_map(entries0).insert(
                mime_type@,
                entry_view(entry),
            ));
        }
    }

    /// Looks the media type up; fails with [`Error::UnknownImageFormat`]
    /// exactly when no loader is registered for it.
    pub fn get(&self, mime_type: &MimeType) -> (r: Result<&ImageDecoderConfig, Error>)
        requires
            self.wf(),
        ensures
            r is Ok <==> self@.contains_key(mime_type@),
            r is Ok ==> entry_view(*r->Ok_0) == self@[mime_type@],
            r is Err ==> (r->Err_0 is UnknownImageFormat
                && r->Err_0->UnknownImageFormat_0@ == mime_type@),
    {
        let ghost entries = self.image_decoders@;
        let mut i: usize = 0;
        while i < self.image_decoders.len()
            invariant
                self.image_decoders@ == entries,
                unique_keys(entries),
                i <= entries.len(),
                forall|k: int| 0 <= k < i ==> entries[k].0@ != mime_type@,
            decreases entries.len() - i,
        {
            if bytes_eq(self.image_decoders[i].0.as_slice(), mime_type.as_slice()) {
                proof {
                    lemma_loader_map_found(entries, i as int);
                }
                return Ok(&self.image_decoders[i].1);
            }
            i += 1;
        }
        proof {
            lemma_loader_map_not_found(entries, mime_type@);
        }
        Err(Error::UnknownImageFormat(vstd::slice::slice_to_vec(mime_type.as_slice())))
    }

    /// The media types the registry knows, one for each registered loader.
    pub fn known_media_types(&self) -> (r: Vec<MimeType>)
        requires
            self.wf(),
        ensures
            forall|i: int| 0 <= i < r@.len() ==> self@.contains_key(r@[i]@),
            forall|k: Seq<u8>| self@.contains_key(k)
                ==> exists|i: int| 0 <= i < r@.len() && #[trigger] r@[i]@ == k,
            forall|i: int, j: int| 0 <= i < j < r@.len() ==> r@[i]@ != r@[j]@,
    {
        let ghost entries = self.image_decoders@;
        let mut out: Vec<MimeType> = Vec::new();
        let mut i: usize = 0;
        while i < self.image_decoders.len()
            invariant
                self.image_decoders@ == entries,
                unique_keys(entries),
                i <= entries.len(),
                out@.len() == i,
                forall|k: int| 0 <= k < i ==> out@[k]@ == entries[k].0@,
            decreases entries.len() - i,
        {
            out.push(vstd::slice::slice_to_vec(self.image_decoders[i].0.as_slice()));
            i += 1;
        }
        proof {
            assert forall|i: int| 0 <= i < out@.len() implies self@.contains_key(out@[i]@) by {
                lemma_loader_map_found(entries, i);
            }
            assert forall|k: Seq<u8>| self@.contains_key(k) implies exists|i: int|
                0 <= i < out@.len() && #[trigger] out@[i]@ == k by {
                lemma_loader_map_member_index(entries, k);
                let i = choose|i: int|
                    0 <= i < entries.len() && #[trigger] entries[i].0@ == k;
                assert(out@[i]@ == k);
            }
        }
        out
    }
}

proof fn lemma_loader_map_member_index(entries: Seq<(MimeType, ImageDecoderConfig)>, k: Seq<u8>)
    requires
        loader_map(entries).contains_key(k),
    ensures
        exists|i: int| 0 <= i < entries.len() && #[trigger] entries[i].0@ == k,
    decreases entries.len(),
{
    if entries.len() > 0 {
        if entries.last().0@ == k {
            assert(entries[entries.len() - 1].0@ == k);
        } else {
            lemma_loader_map_member_index(entries.drop_last(), k);
            let i = choose|i: int|
                0 <= i < entries.drop_last().len() && #[trigger] entries.drop_last()[i].0@ == k;
            assert(entries[i].0@ == k);
        }
    }
}

} // verus!

verus! {

// ---- the bytes and words of the configuration file format ----

/// The line separator, `\n`.
pub const NEWLINE: u8 = 10;

/// The comment mark, `#`.
pub const COMMENT_MARK: u8 = 35;

/// The opening bracket of a group header, `[`.
pub const GROUP_OPEN: u8 = 91;

/// The closing bracket of a group header, `]`.
pub const GROUP_CLOSE: u8 = 93;

/// The separator between a key and its value, `=`.
pub const KEY_SEP: u8 = 61;

/// The group-name prefix `loader:` that marks a loader declaration.
pub open spec fn loader_prefix() -> Seq<u8> {
    seq![108u8, 111u8, 97u8, 100u8, 101u8, 114u8, 58u8]
}

fn loader_prefix_vec() -> (r: Vec<u8>)
    ensures
        r@ == loader_prefix(),
{
    let r = vec![108u8, 111u8, 97u8, 100u8, 101u8, 114u8, 58u8];
    proof {
        assert(r@ =~= loader_prefix());
    }
    r
}

/// The key `Exec`.
pub open spec fn exec_key() -> Seq<u8> {
    seq![69u8, 120u8, 101u8, 99u8]
}

fn exec_key_vec() -> (r: Vec<u8>)
    ensures
        r@ == exec_key(),
{
    let r = vec![69u8, 120u8, 101u8, 99u8];
    proof {
        assert(r@ =~= exec_key());
    }
    r
}

/// The key `ExposeBaseDir`.
pub open spec fn expose_key() -> Seq<u8> {
    seq![69u8, 120u8, 112u8, 111u8, 115u8, 101u8, 66u8, 97u8, 115u8, 101u8, 68u8, 105u8, 114u8]
}

fn expose_key_vec() -> (r: Vec<u8>)
    ensures
        r@ == expose_key(),
{
    let r = vec![
        69u8, 120u8, 112u8, 111u8, 115u8, 101u8, 66u8, 97u8, 115u8, 101u8, 68u8, 105u8, 114u8,
    ];
    proof {
        assert(r@ =~= expose_key());
    }
    r
}

/// The boolean word `true`.
pub open spec fn true_word() -> Seq<u8> {
    seq![116u8, 114u8, 117u8, 101u8]
}

fn true_word_vec() -> (r: Vec<u8>)
    ensures
        r@ == true_word(),
{
    let r = vec![116u8, 114u8, 117u8, 101u8];
    proof {
        assert(r@ =~= true_word());
    }
    r
}

/// The boolean word `1`.
pub open spec fn one_word() -> Seq<u8> {
    seq![49u8]
}

fn one_word_vec() -> (r: Vec<u8>)
    ensures
        r@ == one_word(),
{
    let r = vec![49u8];
    proof {
        assert(r@ =~= one_word());
    }
    r
}

// ---- insignificant whitespace ----

/// Bytes the format treats as insignificant around group names and the
/// key-value separator: space and horizontal tab.
pub open spec fn is_space(b: u8) -> bool {
    b == 32 || b == 9
}

fn byte_is_space(b: u8) -> (r: bool)
    ensures
        r == is_space(b),
{
    b == 32 || b == 9
}

/// The byte string without its trailing spaces.
pub open spec fn trim_right(s: Seq<u8>) -> Seq<u8>
    decreases s.len(),
{
    if s.len() > 0 && is_space(s.last()) {
        trim_right(s.drop_last())
    } else {
        s
    }
}

/// The byte string without its leading spaces.
pub open spec fn trim_left(s: Seq<u8>) -> Seq<u8>
    decreases s.len(),
{
    if s.len() > 0 && is_space(s.first()) {
        trim_left(s.drop_first())
    } else {
        s
    }
}

/// The byte string without spaces on either end.
pub open spec fn trim(s: Seq<u8>) -> Seq<u8> {
    trim_left(trim_right(s))
}

proof fn lemma_trim_right_take(s: Seq<u8>, j: int)
    requires
        0 <= j <= s.len(),
        forall|k: int| j <= k < s.len() ==> is_space(s[k]),
        j > 0 ==> !is_space(s[j - 1]),
    ensures
        trim_right(s) == s.take(j),
    decreases s.len(),
{
    if j == s.len() {
        assert(s.take(j) =~= s);
    } else {
        assert(is_space(s.last()));
        lemma_trim_right_take(s.drop_last(), j);
        assert(s.drop_last().take(j) =~= s.take(j));
    }
}

proof fn lemma_trim_left_skip(s: Seq<u8>, i: int)
    requires
        0 <= i <= s.len(),
        forall|k: int| 0 <= k < i ==> is_space(s[k]),
        i < s.len() ==> !is_space(s[i]),
    ensures
        trim_left(s) == s.skip(i),
    decreases s.len(),
{
    if i == 0 {
        assert(s.skip(0) =~= s);
    } else {
        assert(is_space(s.first()));
        lemma_trim_left_skip(s.drop_first(), i - 1);
        assert(s.drop_first().skip(i - 1) =~= s.skip(i));
    }
}

/// Drops the trailing spaces.
fn trim_right_vec(s: &[u8]) -> (r: Vec<u8>)
    ensures
        r@ == trim_right(s@),
{
    let mut j: usize = s.len();
    while j > 0 && byte_is_space(s[j - 1])
        invariant
            j <= s@.len(),
            forall|k: int| j <= k < s@.len() ==> is_space(s@[k]),
        decreases j,
    {
        j -= 1;
    }
    proof {
        lemma_trim_right_take(s@, j as int);
        assert(s@.take(j as int) =~= s@.subrange(0, j as int));
    }
    vstd::slice::slice_to_vec(vstd::slice::slice_subrange(s, 0, j))
}

/// Drops the leading spaces.
fn trim_left_vec(s: &[u8]) -> (r: Vec<u8>)
    ensures
        r@ == trim_left(s@),
{
    let mut i: usize = 0;
    while i < s.len() && byte_is_space(s[i])
        invariant
            i <= s@.len(),
            forall|k: int| 0 <= k < i ==> is_space(s@[k]),
        decreases s@.len() - i,
    {
        i += 1;
    }
    proof {
        lemma_trim_left_skip(s@, i as int);
        assert(s@.skip(i as int) =~= s@.subrange(i as int, s@.len() as int));
    }
    vstd::slice::slice_to_vec(vstd::slice::slice_subrange(s, i, s.len()))
}

/// Drops the spaces on both ends.
fn trim_vec(s: &[u8]) -> (r: Vec<u8>)
    ensures
        r@ == trim(s@),
{
    let right = trim_right_vec(s);
    trim_left_vec(right.as_slice())
}

// ---- splitting a file into lines ----

/// Index of the first occurrence of `b` in `s`; the length of `s` when `b`
/// does not occur.
pub open spec fn find_byte(s: Seq<u8>, b: u8) -> nat
    decreases s.len(),
{
    if s.len() == 0 {
        0
    } else if s[0] == b {
        0
    } else {
        1 + find_byte(s.drop_first(), b)
    }
}

proof fn lemma_find_byte(s: Seq<u8>, b: u8)
    ensures
        find_byte(s, b) <= s.len(),
        find_byte(s, b) < s.len() ==> s[find_byte(s, b) as int] == b,
        forall|k: int| 0 <= k < find_byte(s, b) ==> s[k] != b,
    decreases s.len(),
{
    if s.len() > 0 && s[0] != b {
        lemma_find_byte(s.drop_first(), b);
        let p = find_byte(s, b);
        assert forall|k: int| 0 <= k < p implies s[k] != b by {
            if k > 0 {
                assert(s.drop_first()[k - 1] == s[k]);
            }
        }
        if p < s.len() {
            assert(s.drop_first()[p - 1] == s[p as int]);
        }
    }
}

/// The lines of a file, split on the line separator.  A file without a
/// separator is one line; a trailing separator yields a final empty line.
pub open spec fn split_lines(s: Seq<u8>) -> Seq<Seq<u8>>
    decreases s.len(),
{
    let p = find_byte(s, NEWLINE);
    if p >= s.len() {
        seq![s]
    } else {
        seq![s.take(p as int)] + split_lines(s.skip(p as int + 1))
    }
}

/// Finds the next occurrence of `b` at or after `start`; returns the length
/// of the data when there is none.
fn find_byte_in(data: &[u8], b: u8, start: usize) -> (r: usize)
    requires
        start <= data@.len(),
    ensures
        start <= r <= data@.len(),
        r - start == find_byte(data@.skip(start as int), b),
        r < data@.len() ==> data@[r as int] == b,
{
    let ghost s = data@.skip(start as int);
    let mut j: usize = start;
    while j < data.len()
        invariant
            start <= j <= data@.len(),
            s == data@.skip(start as int),
            forall|k: int| start <= k < j ==> data@[k] != b,
        decreases data@.len() - j,
    {
        if data[j] == b {
            proof {
                lemma_find_byte(s, b);
                assert(forall|k: int| 0 <= k < s.len() ==> s[k] == data@[start + k]);
                assert(s[j - start] == b);
                if find_byte(s, b) < j - start {
                    assert(s[find_byte(s, b) as int] == b);
                    assert(false);
                }
            }
            return j;
        }
        j += 1;
    }
    proof {
        lemma_find_byte(s, b);
        assert(forall|k: int| 0 <= k < s.len() ==> s[k] == data@[start + k]);
        if find_byte(s, b) < s.len() {
            assert(s[find_byte(s, b) as int] == b);
            assert(false);
        }
    }
    data.len()
}

/// The byte strings a list of owned lines stands for.
pub open spec fn views_of(s: Seq<Vec<u8>>) -> Seq<Seq<u8>> {
    s.map_values(|v: Vec<u8>| v@)
}

/// Splits a file into its lines.
fn split_lines_exec(data: &[u8]) -> (r: Vec<Vec<u8>>)
    ensures
        views_of(r@) == split_lines(data@),
{
    let mut lines: Vec<Vec<u8>> = Vec::new();
    let mut start: usize = 0;
    proof {
        assert(data@.skip(0) =~= data@);
        assert(views_of(lines@) + split_lines(data@) =~= split_lines(data@));
    }
    loop
        invariant
            start <= data@.len(),
            views_of(lines@) + split_lines(data@.skip(start as int)) =~= split_lines(data@),
        decreases data@.len() - start,
    {
        let ghost tail = data@.skip(start as int);
        let ghost lines0 = lines@;
        let j = find_byte_in(data, NEWLINE, start);
        if j >= data.len() {
            let line = vstd::slice::slice_to_vec(vstd::slice::slice_subrange(
                data,
                start,
                data.len(),
            ));
            lines.push(line);
            proof {
                assert(find_byte(tail, NEWLINE) >= tail.len());
                assert(split_lines(tail) == seq![tail]);
                assert(views_of(lines@) =~= views_of(lines0) + seq![tail]);
                assert(views_of(lines@) =~= split_lines(data@));
            }
            return lines;
        }
        let line = vstd::slice::slice_to_vec(vstd::slice::slice_subrange(data, start, j));
        lines.push(line);
        proof {
            let p = find_byte(tail, NEWLINE);
            assert(p == j - start);
            assert(p < tail.len());
            assert(split_lines(tail) == seq![tail.take(p as int)] + split_lines(
                tail.skip(p as int + 1),
            ));
            assert(tail.take(p as int) =~= data@.subrange(start as int, j as int));
            assert(tail.skip(p as int + 1) =~= data@.skip(j as int + 1));
            assert(views_of(lines@) =~= views_of(lines0).push(tail.take(p as int)));
            assert(views_of(lines@) + split_lines(data@.skip(j as int + 1))
                =~= views_of(lines0) + split_lines(tail));
        }
        start = j + 1;
    }
}

// ---- reading loader declarations out of the lines ----

/// Lines that carry nothing: empty lines and comments.
pub open spec fn is_skipped_line(line: Seq<u8>) -> bool {
    line.len() == 0 || line[0] == COMMENT_MARK
}

/// A group header: the whole line bracketed.
pub open spec fn is_header_line(line: Seq<u8>) -> bool {
    line.len() >= 2 && line[0] == GROUP_OPEN && line[line.len() - 1] == GROUP_CLOSE
}

/// The group name between the brackets, spaces on either end ignored.
pub open spec fn header_name(line: Seq<u8>) -> Seq<u8> {
    trim(line.subrange(1, line.len() - 1))
}

/// A key-value line: a separator with a nonempty key before it.  Spaces
/// around the separator are insignificant, so the key must survive trimming.
pub open spec fn is_kv_line(line: Seq<u8>) -> bool {
    &&& 0 < find_byte(line, KEY_SEP) < line.len()
    &&& kv_key(line).len() > 0
}

/// The key of a key-value line: what stands before the separator, trailing
/// spaces ignored.
pub open spec fn kv_key(line: Seq<u8>) -> Seq<u8> {
    trim_right(line.take(find_byte(line, KEY_SEP) as int))
}

/// The value of a key-value line: what stands after the separator, leading
/// spaces ignored.
pub open spec fn kv_value(line: Seq<u8>) -> Seq<u8> {
    trim_left(line.skip(find_byte(line, KEY_SEP) as int + 1))
}

/// A loader group while its lines are being read: the media type, the
/// `Exec` value seen so far, and the `ExposeBaseDir` flag.
pub type PendingView = (Seq<u8>, Option<Seq<u8>>, bool);

/// The state a group header opens: a fresh loader group when the name starts
/// with the loader prefix, nothing otherwise.
pub open spec fn pending_of_header(name: Seq<u8>) -> Option<PendingView> {
    if name.len() > loader_prefix().len() && name.take(loader_prefix().len() as int)
        == loader_prefix() {
        Some((name.skip(loader_prefix().len() as int), None, false))
    } else {
        None
    }
}

/// How one key-value line changes the loader group being read.  A repeated
/// key overrides the earlier value; unknown keys are ignored.  A boolean is
/// the word `true` or `1`; any other value means false.
pub open spec fn pending_kv(cur: PendingView, key: Seq<u8>, value: Seq<u8>) -> PendingView {
    if key == exec_key() {
        (cur.0, Some(value), cur.2)
    } else if key == expose_key() {
        (cur.0, cur.1, value == true_word() || value == one_word())
    } else {
        cur
    }
}

/// What a finished group contributes: one declaration when it was a loader
/// group with an `Exec` key, nothing otherwise.
pub open spec fn flush_pending(cur: Option<PendingView>) -> Seq<(Seq<u8>, (Seq<u8>, bool))> {
    match cur {
        Some(p) => match p.1 {
            Some(exec_value) => seq![(p.0, (exec_value, p.2))],
            None => seq![],
        },
        None => seq![],
    }
}

/// The declarations the remaining lines contribute, given whether a group is
/// open and the loader group being read; `None` when a line is malformed.
pub open spec fn lines_entries(
    lines: Seq<Seq<u8>>,
    in_group: bool,
    cur: Option<PendingView>,
) -> Option<Seq<(Seq<u8>, (Seq<u8>, bool))>>
    decreases lines.len(),
{
    if lines.len() == 0 {
        Some(flush_pending(cur))
    } else {
        let line = lines[0];
        let rest = lines.drop_first();
        if is_skipped_line(line) {
            lines_entries(rest, in_group, cur)
        } else if line[0] == GROUP_OPEN {
            if is_header_line(line) {
                match lines_entries(rest, true, pending_of_header(header_name(line))) {
                    Some(tail) => Some(flush_pending(cur) + tail),
                    None => None,
                }
            } else {
                None
            }
        } else if is_kv_line(line) {
            if !in_group {
                None
            } else {
                match cur {
                    Some(p) => lines_entries(
                        rest,
                        true,
                        Some(pending_kv(p, kv_key(line), kv_value(line))),
                    ),
                    None => lines_entries(rest, true, None),
                }
            }
        } else {
            None
        }
    }
}

/// The declarations a whole file contributes, in order; `None` when the file
/// is malformed.
pub open spec fn file_entries(data: Seq<u8>) -> Option<Seq<(Seq<u8>, (Seq<u8>, bool))>> {
    lines_entries(split_lines(data), false, None)
}

/// A loader group while it is being read.
struct Pending {
    mime: Vec<u8>,
    exec_value: Option<Vec<u8>>,
    expose: bool,
}

impl Pending {
    spec fn view(self) -> PendingView {
        (
            self.mime@,
            match self.exec_value {
                Some(v) => Some(v@),
                None => None,
            },
            self.expose,
        )
    }
}

spec fn cur_view(cur: Option<Pending>) -> Option<PendingView> {
    match cur {
        Some(p) => Some(p.view()),
        None => None,
    }
}

/// What a list of owned declarations says, as a mathematical value.
pub open spec fn entries_view(
    s: Seq<(MimeType, ImageDecoderConfig)>,
) -> Seq<(Seq<u8>, (Seq<u8>, bool))> {
    s.map_values(|e: (MimeType, ImageDecoderConfig)| (e.0@, entry_view(e.1)))
}

/// Appends what a finished group contributes.
fn flush_into(cur: Option<Pending>, out: &mut Vec<(MimeType, ImageDecoderConfig)>)
    ensures
        entries_view(final(out)@) =~= entries_view(old(out)@) + flush_pending(cur_view(cur)),
{
    match cur {
        Some(p) => match p.exec_value {
            Some(exec_value) => {
                out.push((
                    p.mime,
                    ImageDecoderConfig { exec_path: exec_value, expose_base_dir: p.expose },
                ));
            },
            None => {},
        },
        None => {},
    }
}

/// Reads the loader declarations of one configuration file; `None` when the
/// file is malformed.
fn parse_loader_file(data: &[u8]) -> (r: Option<Vec<(MimeType, ImageDecoderConfig)>>)
    ensures
        r is Some <==> file_entries(data@) is Some,
        r is Some ==> entries_view(r->0@) == file_entries(data@)->0,
{
    let lines = split_lines_exec(data);
    let ghost lv = views_of(lines@);
    let mut out: Vec<(MimeType, ImageDecoderConfig)> = Vec::new();
    let mut in_group = false;
    let mut cur: Option<Pending> = None;
    let mut i: usize = 0;
    proof {
        assert(lv.skip(0) =~= lv);
        assert(entries_view(out@) =~= Seq::<(Seq<u8>, (Seq<u8>, bool))>::empty());
    }
    while i < lines.len()
        invariant
            i <= lines@.len(),
            lv == views_of(lines@),
            lv == split_lines(data@),
            lines_entries(lv.skip(i as int), in_group, cur_view(cur)) is Some
                ==> lines_entries(lv, false, None) == Some(
                entries_view(out@) + lines_entries(lv.skip(i as int), in_group, cur_view(cur))->0,
            ),
            lines_entries(lv.skip(i as int), in_group, cur_view(cur)) is None
                ==> lines_entries(lv, false, None) is None,
        decreases lines@.len() - i,
    {
        let ghost rest0 = lv.skip(i as int);
        proof {
            assert(rest0[0] == lv[i as int]);
            assert(lv[i as int] == lines@[i as int]@);
            assert(rest0.drop_first() =~= lv.skip(i as int + 1));
        }
        let line = &lines[i];
        if line.len() == 0 || line[0] == COMMENT_MARK {
            // carries nothing
        } else if line[0] == GROUP_OPEN {
            if line.len() >= 2 && line[line.len() - 1] == GROUP_CLOSE {
                let name = trim_vec(vstd::slice::slice_subrange(line.as_slice(), 1, line.len() - 1));
                let ghost out0 = out@;
                let prev = cur;
                let prefix = loader_prefix_vec();
                if name.len() > prefix.len() && bytes_eq(
                    vstd::slice::slice_subrange(name.as_slice(), 0, prefix.len()),
                    prefix.as_slice(),
                ) {
                    let mime = vstd::slice::slice_to_vec(vstd::slice::slice_subrange(
                        name.as_slice(),
                        prefix.len(),
                        name.len(),
                    ));
                    cur = Some(Pending { mime, exec_value: None, expose: false });
                } else {
                    cur = None;
                }
                in_group = true;
                flush_into(prev, &mut out);
                proof {
                    assert(name@ == header_name(rest0[0]));
                    assert(cur_view(cur) == pending_of_header(header_name(rest0[0]))) by {
                        if name@.len() > loader_prefix().len() {
                            assert(name@.take(loader_prefix().len() as int) =~= name@.subrange(
                                0,
                                loader_prefix().len() as int,
                            ));
                        }
                    }
                    if lines_entries(lv.skip(i as int + 1), true, cur_view(cur)) is Some {
                        let tail = lines_entries(lv.skip(i as int + 1), true, cur_view(cur))->0;
                        assert(lines_entries(rest0, in_group, cur_view(prev)) == Some(
                            flush_pending(cur_view(prev)) + tail,
                        ));
                        assert(entries_view(out0) + (flush_pending(cur_view(prev)) + tail)
                            =~= entries_view(out@) + tail);
                    }
                }
            } else {
                proof {
                    assert(lines_entries(rest0, in_group, cur_view(cur)) is None);
                }
                return None;
            }
        } else {
            let p = find_byte_in(line.as_slice(), KEY_SEP, 0);
            proof {
                assert(line@.skip(0) =~= line@);
                assert(find_byte(line@, KEY_SEP) == p);
            }
            if p == 0 || p >= line.len() {
                proof {
                    assert(!is_kv_line(rest0[0]));
                    assert(lines_entries(rest0, in_group, cur_view(cur)) is None);
                }
                return None;
            }
            let key = trim_right_vec(vstd::slice::slice_subrange(line.as_slice(), 0, p));
            proof {
                assert(line@.take(p as int) =~= line@.subrange(0, p as int));
                assert(key@ == kv_key(rest0[0]));
            }
            if key.len() == 0 {
                proof {
                    assert(!is_kv_line(rest0[0]));
                    assert(lines_entries(rest0, in_group, cur_view(cur)) is None);
                }
                return None;
            }
            if !in_group {
                proof {
                    assert(lines_entries(rest0, in_group, cur_view(cur)) is None);
                }
                return None;
            }
            let ghost old_cur = cur_view(cur);
            match cur {
                Some(mut pending) => {
                    let value = trim_left_vec(vstd::slice::slice_subrange(
                        line.as_slice(),
                        p + 1,
                        line.len(),
                    ));
                    proof {
                        assert(line@.skip(p as int + 1) =~= line@.subrange(
                            p as int + 1,
                            line@.len() as int,
                        ));
                        assert(value@ == kv_value(rest0[0]));
                    }
                    if bytes_eq(key.as_slice(), exec_key_vec().as_slice()) {
                        pending.exec_value = Some(value);
                    } else if bytes_eq(key.as_slice(), expose_key_vec().as_slice()) {
                        pending.expose = bytes_eq(value.as_slice(), true_word_vec().as_slice())
                            || bytes_eq(value.as_slice(), one_word_vec().as_slice());
                    }
                    proof {
                        assert(pending.view() == pending_kv(
                            old_cur->0,
                            kv_key(rest0[0]),
                            kv_value(rest0[0]),
                        ));
                    }
                    cur = Some(pending);
                },
                None => {
                    cur = None;
                },
            }
        }
        i += 1;
    }
    proof {
        assert(lv.skip(lv.len() as int) =~= Seq::<Seq<u8>>::empty());
        assert(lines_entries(lv.skip(i as int), in_group, cur_view(cur)) == Some(
            flush_pending(cur_view(cur)),
        ));
    }
    let ghost out1 = out@;
    let ghost cur1 = cur_view(cur);
    flush_into(cur, &mut out);
    proof {
        assert(entries_view(out@) =~= entries_view(out1) + flush_pending(cur1));
    }
    Some(out)
}

// ---- applying files to the registry ----

/// The registry after the declarations are added in order, the later entry
/// winning for a repeated media type.
pub open spec fn apply_entries(
    m: Map<Seq<u8>, (Seq<u8>, bool)>,
    es: Seq<(Seq<u8>, (Seq<u8>, bool))>,
) -> Map<Seq<u8>, (Seq<u8>, bool)>
    decreases es.len(),
{
    if es.len() == 0 {
        m
    } else {
        apply_entries(m.insert(es[0].0, es[0].1), es.drop_first())
    }
}

/// The registry after one configuration file: its declarations applied in
/// order when the file is well-formed, nothing changed when it is malformed.
pub open spec fn file_effect(
    m: Map<Seq<u8>, (Seq<u8>, bool)>,
    data: Seq<u8>,
) -> Map<Seq<u8>, (Seq<u8>, bool)> {
    match file_entries(data) {
        Some(es) => apply_entries(m, es),
        None => m,
    }
}

/// The registry after a list of configuration files, read in order.
pub open spec fn files_effect(
    m: Map<Seq<u8>, (Seq<u8>, bool)>,
    files: Seq<Seq<u8>>,
) -> Map<Seq<u8>, (Seq<u8>, bool)>
    decreases files.len(),
{
    if files.len() == 0 {
        m
    } else {
        files_effect(file_effect(m, files[0]), files.drop_first())
    }
}

impl Config {
    /// Reads one configuration file into the registry.  Returns whether the
    /// file was well-formed; a malformed file changes nothing.
    pub fn apply_file(&mut self, data: &[u8]) -> (ok: bool)
        requires
            old(self).wf(),
        ensures
            final(self).wf(),
            ok <==> file_entries(data@) is Some,
            final(self)@ == file_effect(old(self)@, data@),
    {
        match parse_loader_file(data) {
            None => false,
            Some(mut es) => {
                let ghost m0 = self@;
                let ghost full = entries_view(es@);
                while es.len() > 0
                    invariant
                        self.wf(),
                        apply_entries(self@, entries_view(es@)) == apply_entries(m0, full),
                    decreases es@.len(),
                {
                    let ghost es0 = es@;
                    let e = es.remove(0);
                    proof {
                        assert(entries_view(es@) =~= entries_view(es0).drop_first());
                        assert(entries_view(es0)[0] == (e.0@, entry_view(e.1)));
                    }
                    self.insert(e.0, e.1);
                }
                proof {
                    assert(entries_view(es@) =~= Seq::<(Seq<u8>, (Seq<u8>, bool))>::empty());
                }
                true
            },
        }
    }

    /// Builds the registry from the contents of the configuration files, in
    /// the order they were found: system directories first, then the user
    /// directory, so that a later file's declaration of a media type wins.
    pub fn load_from_data(files: &Vec<Vec<u8>>) -> (r: Config)
        ensures
            r.wf(),
            r@ == files_effect(Map::<Seq<u8>, (Seq<u8>, bool)>::empty(), views_of(files@)),
    {
        let ghost fv = views_of(files@);
        let mut cfg = Config::new();
        let mut i: usize = 0;
        proof {
            assert(fv.skip(0) =~= fv);
        }
        while i < files.len()
            invariant
                i <= files@.len(),
                fv == views_of(files@),
                cfg.wf(),
                files_effect(cfg@, fv.skip(i as int)) == files_effect(
                    Map::<Seq<u8>, (Seq<u8>, bool)>::empty(),
                    fv,
                ),
            decreases files@.len() - i,
        {
            let ghost rest = fv.skip(i as int);
            proof {
                assert(rest[0] == fv[i as int]);
                assert(fv[i as int] == files@[i as int]@);
                assert(rest.drop_first() =~= fv.skip(i as int + 1));
            }
            cfg.apply_file(files[i].as_slice());
            i += 1;
        }
        proof {
            assert(fv.skip(fv.len() as int) =~= Seq::<Seq<u8>>::empty());
        }
        cfg
    }
}

// ---- what the loading rules guarantee ----

/// A file that declares a media type decides that media type's entry, no
/// matter what the registry held before: declarations later in the file win
/// over earlier ones, and the whole file wins over everything before it.
pub open spec fn last_entry_for(
    es: Seq<(Seq<u8>, (Seq<u8>, bool))>,
    mime: Seq<u8>,
) -> Option<(Seq<u8>, bool)>
    decreases es.len(),
{
    if es.len() == 0 {
        None
    } else if es.last().0 == mime {
        Some(es.last().1)
    } else {
        last_entry_for(es.drop_last(), mime)
    }
}

proof fn lemma_apply_entries_last(
    m: Map<Seq<u8>, (Seq<u8>, bool)>,
    es: Seq<(Seq<u8>, (Seq<u8>, bool))>,
    mime: Seq<u8>,
)
    ensures
        last_entry_for(es, mime) is Some ==> apply_entries(m, es).contains_key(mime)
            && apply_entries(m, es)[mime] == last_entry_for(es, mime)->0,
        last_entry_for(es, mime) is None ==> (apply_entries(m, es).contains_key(mime)
            <==> m.contains_key(mime)) && (m.contains_key(mime) ==> apply_entries(m, es)[mime]
            == m[mime]),
    decreases es.len(),
{
    if es.len() > 0 {
        lemma_apply_entries_last(m.insert(es[0].0, es[0].1), es.drop_first(), mime);
        if es.len() == 1 {
            assert(es.drop_first() =~= Seq::<(Seq<u8>, (Seq<u8>, bool))>::empty());
            assert(es.last() == es[0]);
            assert(es.drop_last() =~= Seq::<(Seq<u8>, (Seq<u8>, bool))>::empty());
            assert(last_entry_for(Seq::<(Seq<u8>, (Seq<u8>, bool))>::empty(), mime) is None);
        } else {
            lemma_last_entry_unroll_front(es, mime);
        }
    }
}

proof fn lemma_last_entry_unroll_front(es: Seq<(Seq<u8>, (Seq<u8>, bool))>, mime: Seq<u8>)
    requires
        es.len() >= 2,
    ensures
        last_entry_for(es, mime) == if last_entry_for(es.drop_first(), mime) is Some {
            last_entry_for(es.drop_first(), mime)
        } else if es[0].0 == mime {
            Some(es[0].1)
        } else {
            None
        },
    decreases es.len(),
{
    assert(es.drop_first().last() == es.last());
    assert(last_entry_for(Seq::<(Seq<u8>, (Seq<u8>, bool))>::empty(), mime) is None);
    if es.last().0 != mime {
        assert(es.drop_last().len() >= 1);
        assert(es.drop_first().drop_last() =~= es.drop_last().drop_first());
        if es.drop_last().len() >= 2 {
            lemma_last_entry_unroll_front(es.drop_last(), mime);
        } else {
            assert(es.drop_last() =~= seq![es[0]]);
            assert(es.drop_last().last() == es[0]);
            assert(es.drop_last().drop_last() =~= Seq::<(Seq<u8>, (Seq<u8>, bool))>::empty());
            assert(es.drop_first().drop_last() =~= Seq::<(Seq<u8>, (Seq<u8>, bool))>::empty());
        }
    }
}

/// Registry precedence: when the same media type is declared in two files,
/// the file read later decides the entry.  Here the later file is read last:
/// whatever the earlier files put into the registry, the later file's last
/// declaration of the media type is what the registry holds.
pub proof fn lemma_registry_precedence(
    m: Map<Seq<u8>, (Seq<u8>, bool)>,
    earlier: Seq<u8>,
    later: Seq<u8>,
    mime: Seq<u8>,
)
    requires
        file_entries(later) is Some,
        last_entry_for(file_entries(later)->0, mime) is Some,
    ensures
        file_effect(file_effect(m, earlier), later).contains_key(mime),
        file_effect(file_effect(m, earlier), later)[mime] == last_entry_for(
            file_entries(later)->0,
            mime,
        )->0,
{
    lemma_apply_entries_last(file_effect(m, earlier), file_entries(later)->0, mime);
}

/// A media type never declared by any well-formed file is not in the
/// registry; with no configuration files at all the registry is empty.
pub proof fn lemma_absent_mime(
    m: Map<Seq<u8>, (Seq<u8>, bool)>,
    data: Seq<u8>,
    mime: Seq<u8>,
)
    requires
        file_entries(data) is Some ==> last_entry_for(file_entries(data)->0, mime) is None,
    ensures
        file_effect(m, data).contains_key(mime) <==> m.contains_key(mime),
{
    if file_entries(data) is Some {
        lemma_apply_entries_last(m, file_entries(data)->0, mime);
    }
}

/// With no configuration files at all, the registry stays empty: no media
/// type has an entry, so every lookup fails as unknown.
pub proof fn lemma_no_files_empty_registry(files: Seq<Seq<u8>>, mime: Seq<u8>)
    requires
        files.len() == 0,
    ensures
        !files_effect(Map::<Seq<u8>, (Seq<u8>, bool)>::empty(), files).contains_key(mime),
{
}

} // verus!
