use vstd::prelude::*;
use crate::base::{Chunk, Range};
use crate::lexeme::{TagHint, TagNameInfo};

verus! {

/// How a run of the data state ends.
#[derive(Clone, Copy, Debug, PartialEq, Eq, Structural)]
pub enum DataStateExit {
    /// A `<` was found: the lexer goes on in the tag open state.
    TagOpen,
    /// The chunk ran out; the state resumes with the next chunk.
    EndOfChunk,
    /// The input ran out for good: the text is emitted, then the end of input.
    EndOfFile,
}

/// The text that the data state read, and how the run ended.
#[derive(Clone, Copy, Debug, PartialEq, Eq, Structural)]
pub struct DataStateRun {
    pub text_end: usize,
    pub exit: DataStateExit,
}

/// Runs the data state from `start`: text runs up to the first `<`, which
/// opens a tag, or to the end of the chunk, which is the end of input when
/// `last_chunk` holds.
pub fn data_state(input: &Chunk, start: usize, last_chunk: bool) -> (r: DataStateRun)
    requires
        start <= input@.len(),
    ensures
        start <= r.text_end <= input@.len(),
        forall|i: int| start <= i < r.text_end ==> input@[i] != 0x3cu8,
        r.exit == DataStateExit::TagOpen <==> r.text_end < input@.len(),
        r.exit == DataStateExit::TagOpen ==> input@[r.text_end as int] == 0x3cu8,
        r.exit == DataStateExit::EndOfFile <==> (r.text_end == input@.len() && last_chunk),
{
    let bytes = input.as_bytes();
    let mut i: usize = start;
    while i < bytes.len()
        invariant
            start <= i <= bytes@.len(),
            bytes@ == input@,
            forall|j: int| start <= j < i ==> input@[j] != 0x3cu8,
        decreases bytes@.len() - i,
    {
        if bytes[i] == 0x3cu8 {
            return DataStateRun { text_end: i, exit: DataStateExit::TagOpen };
        }
        i = i + 1;
    }
    if last_chunk {
        DataStateRun { text_end: i, exit: DataStateExit::EndOfFile }
    } else {
        DataStateRun { text_end: i, exit: DataStateExit::EndOfChunk }
    }
}

/// An end tag in raw text, script data or RCDATA is honoured only when its
/// name hash equals that of the last start tag.
pub fn appropriate_end_tag(last_start_tag_name_hash: Option<u64>, end_tag_name_hash: Option<u64>) -> (r: bool)
    ensures
        r == (last_start_tag_name_hash == end_tag_name_hash),
{
    match (last_start_tag_name_hash, end_tag_name_hash) {
        (Some(a), Some(b)) => a == b,
        (None, None) => true,
        _ => false,
    }
}

/// The code of a name byte in the hash: `a`-`z` (either case) are 1 to 26,
/// `0`-`9` are 27 to 36, `-` is 37; any other byte has none (0).
pub open spec fn name_char_code(b: u8) -> u64 {
    if 0x61u8 <= b <= 0x7au8 {
        (b - 0x60u8) as u64
    } else if 0x41u8 <= b <= 0x5au8 {
        (b - 0x40u8) as u64
    } else if 0x30u8 <= b <= 0x39u8 {
        (b - 0x30u8 + 27u8) as u64
    } else if b == 0x2du8 {
        37u64
    } else {
        0u64
    }
}

/// Hashes hold at most ten characters, six bits each.
pub const NAME_HASH_SHIFT_LIMIT: u64 = 0x40_0000_0000_0000;

/// The hash after one more byte of the name.
pub open spec fn next_name_hash(hash: Option<u64>, b: u8) -> Option<u64> {
    match hash {
        None => None,
        Some(h) => if name_char_code(b) == 0 || h >= NAME_HASH_SHIFT_LIMIT {
            None
        } else {
            Some((h * 64 + name_char_code(b)) as u64)
        },
    }
}

/// The hash of a whole name; none for a name with a byte out of the set or
/// longer than ten bytes.
pub open spec fn name_hash_of(name: Seq<u8>) -> Option<u64>
    decreases name.len(),
{
    if name.len() == 0 {
        Some(0u64)
    } else {
        next_name_hash(name_hash_of(name.drop_last()), name.last())
    }
}

fn name_char_code_of(b: u8) -> (r: u64)
    ensures
        r == name_char_code(b),
{
    if 0x61u8 <= b && b <= 0x7au8 {
        (b - 0x60u8) as u64
    } else if 0x41u8 <= b && b <= 0x5au8 {
        (b - 0x40u8) as u64
    } else if 0x30u8 <= b && b <= 0x39u8 {
        (b - 0x30u8 + 27u8) as u64
    } else if b == 0x2du8 {
        37u64
    } else {
        0u64
    }
}

pub fn update_name_hash(hash: Option<u64>, b: u8) -> (r: Option<u64>)
    ensures
        r == next_name_hash(hash, b),
{
    match hash {
        None => None,
        Some(h) => {
            let code = name_char_code_of(b);
            if code == 0 || h >= NAME_HASH_SHIFT_LIMIT {
                None
            } else {
                assert(h * 64 + code < 0x1000_0000_0000_0000) by (nonlinear_arith)
                    requires
                        h < 0x40_0000_0000_0000,
                        code <= 37,
                ;
                Some(h * 64 + code)
            }
        },
    }
}

pub fn name_hash(name: &[u8]) -> (r: Option<u64>)
    ensures
        r == name_hash_of(name@),
{
    let mut hash: Option<u64> = Some(0);
    let mut i: usize = 0;
    while i < name.len()
        invariant
            i <= name@.len(),
            hash == name_hash_of(name@.subrange(0, i as int)),
        decreases name@.len() - i,
    {
        let ghost prefix = name@.subrange(0, i + 1);
        assert(prefix.drop_last() =~= name@.subrange(0, i as int));
        hash = update_name_hash(hash, name[i]);
        i = i + 1;
    }
    assert(name@.subrange(0, name@.len() as int) =~= name@);
    hash
}

/// ASCII upper case folded to lower case.
pub open spec fn ascii_lower(b: u8) -> u8 {
    if 0x41u8 <= b <= 0x5au8 {
        (b + 0x20u8) as u8
    } else {
        b
    }
}

pub open spec fn folded(name: Seq<u8>) -> Seq<u8> {
    name.map_values(|b: u8| ascii_lower(b))
}

proof fn lemma_hash_shape(name: Seq<u8>, h: u64)
    requires
        name_hash_of(name) == Some(h),
    ensures
        name.len() == 0 <==> h == 0,
        name.len() > 0 ==> {
            &&& h % 64 == name_char_code(name.last())
            &&& name_hash_of(name.drop_last()) == Some((h / 64) as u64)
        },
{
    if name.len() > 0 {
        let p = name_hash_of(name.drop_last()).unwrap();
        let c = name_char_code(name.last());
        assert(1 <= c <= 37);
        assert(p < NAME_HASH_SHIFT_LIMIT);
        assert(h == p * 64 + c);
        assert((p * 64 + c) % 64 == c && (p * 64 + c) / 64 == p) by (nonlinear_arith)
            requires
                1 <= c <= 37,
                p < 0x40_0000_0000_0000u64,
        ;
    }
}

/// The name hash is perfect: two names with the same hash are the same name
/// but for ASCII case.
pub proof fn lemma_name_hash_perfect(a: Seq<u8>, b: Seq<u8>)
    requires
        name_hash_of(a) is Some,
        name_hash_of(a) == name_hash_of(b),
    ensures
        folded(a) == folded(b),
    decreases a.len(),
{
    let h = name_hash_of(a).unwrap();
    lemma_hash_shape(a, h);
    lemma_hash_shape(b, h);
    if a.len() == 0 {
        assert(folded(a) =~= folded(b));
    } else {
        let x = a.last();
        let y = b.last();
        assert(name_char_code(x) == name_char_code(y));
        assert(ascii_lower(x) == ascii_lower(y));
        lemma_name_hash_perfect(a.drop_last(), b.drop_last());
        assert(folded(a).drop_last() =~= folded(a.drop_last()));
        assert(folded(b).drop_last() =~= folded(b.drop_last()));
        assert(folded(a) =~= folded(a).drop_last().push(ascii_lower(x)));
        assert(folded(b) =~= folded(b).drop_last().push(ascii_lower(y)));
    }
}

/// Bytes that end a tag name: white space, `/` and `>`.
pub open spec fn ends_tag_name(b: u8) -> bool {
    b == 0x09u8 || b == 0x0au8 || b == 0x0cu8 || b == 0x0du8 || b == 0x20u8 || b == 0x2fu8 || b == 0x3eu8
}

pub open spec fn is_ascii_alpha(b: u8) -> bool {
    (0x41u8 <= b <= 0x5au8) || (0x61u8 <= b <= 0x7au8)
}

/// What the tag scanner found at a `<`.
#[derive(Clone, Copy, Debug, PartialEq, Eq, Structural)]
pub enum TagScan {
    /// A tag, whose bytes end just before `tag_end`.
    Tag { hint: TagHint, tag_end: usize },
    /// The `<` opens no tag: it is text.
    NotATag,
    /// The chunk ends inside the tag: the bytes from the `<` on are kept for
    /// the next chunk.
    Incomplete,
}

fn ends_tag_name_byte(b: u8) -> (r: bool)
    ensures
        r == ends_tag_name(b),
{
    b == 0x09u8 || b == 0x0au8 || b == 0x0cu8 || b == 0x0du8 || b == 0x20u8 || b == 0x2fu8 || b == 0x3eu8
}

/// Where a tag name that runs from `i` ends: the first byte from `i` on that
/// ends a name, or the end of the input.
pub open spec fn name_end_from(s: Seq<u8>, i: int) -> int
    decreases s.len() - i,
{
    if i < 0 || i >= s.len() {
        s.len() as int
    } else if ends_tag_name(s[i]) {
        i
    } else {
        name_end_from(s, i + 1)
    }
}

/// The first `>` from `i` on that stands outside a quoted attribute value,
/// when `quote` is the quote that is open at `i` (0 for none).
pub open spec fn unquoted_gt_from(s: Seq<u8>, i: int, quote: u8) -> Option<int>
    decreases s.len() - i,
{
    if i < 0 || i >= s.len() {
        None
    } else if quote != 0 {
        unquoted_gt_from(s, i + 1, if s[i] == quote { 0u8 } else { quote })
    } else if s[i] == 0x22u8 || s[i] == 0x27u8 {
        unquoted_gt_from(s, i + 1, s[i])
    } else if s[i] == 0x3eu8 {
        Some(i)
    } else {
        unquoted_gt_from(s, i + 1, 0u8)
    }
}

fn find_tag_end(bytes: &[u8], from: usize) -> (r: Option<usize>)
    requires
        from <= bytes@.len(),
    ensures
        r matches Some(e) ==> e < bytes@.len() && unquoted_gt_from(bytes@, from as int, 0u8) == Some(e as int),
        r is None ==> unquoted_gt_from(bytes@, from as int, 0u8) is None,
{
    let mut i: usize = from;
    let mut quote: u8 = 0;
    while i < bytes.len()
        invariant
            from <= i <= bytes@.len(),
            unquoted_gt_from(bytes@, from as int, 0u8) == unquoted_gt_from(bytes@, i as int, quote),
        decreases bytes@.len() - i,
    {
        let b = bytes[i];
        if quote != 0 {
            if b == quote {
                quote = 0;
            }
        } else if b == 0x22u8 || b == 0x27u8 {
            quote = b;
        } else if b == 0x3eu8 {
            return Some(i);
        }
        i = i + 1;
    }
    None
}

/// The tag scanner at a `<`: `<name` opens a start tag and `</name` an end
/// tag, where a name starts with an ASCII letter and runs up to white space,
/// `/` or `>`. The hint carries the name's range and hash.
pub fn scan_tag(input: &Chunk, lt: usize) -> (r: TagScan)
    requires
        lt < input@.len(),
        input@[lt as int] == 0x3cu8,
    ensures
        ({
            let s = input@;
            let is_end = lt + 1 < s.len() && s[lt + 1] == 0x2fu8;
            let p = if is_end {
                lt + 2
            } else {
                lt + 1
            };
            let name_end = name_end_from(s, p as int);
            let found = p < s.len() && is_ascii_alpha(s[p as int]) && name_end < s.len()
                && unquoted_gt_from(s, name_end, 0u8) is Some;
            &&& (r is NotATag <==> (p < s.len() && !is_ascii_alpha(s[p as int])))
            &&& (r is Tag <==> found)
            &&& (r matches TagScan::Tag { hint, tag_end } ==> {
                let info = match hint {
                    TagHint::StartTag(i) => i,
                    TagHint::EndTag(i) => i,
                };
                &&& (hint is EndTag <==> is_end)
                &&& info.name == (Range { start: p as usize, end: name_end as usize })
                &&& unquoted_gt_from(s, name_end, 0u8) == Some(tag_end - 1)
                &&& info.name_hash == name_hash_of(s.subrange(p as int, name_end))
            })
        }),
{
    let bytes = input.as_bytes();
    let len = bytes.len();
    if lt + 1 >= len {
        return TagScan::Incomplete;
    }
    let is_end = bytes[lt + 1] == 0x2fu8;
    let name_start = if is_end {
        lt + 2
    } else {
        lt + 1
    };
    if name_start >= len {
        return TagScan::Incomplete;
    }
    let first = bytes[name_start];
    assert(!ends_tag_name(first) <== is_ascii_alpha(first));
    if !((0x41u8 <= first && first <= 0x5au8) || (0x61u8 <= first && first <= 0x7au8)) {
        return TagScan::NotATag;
    }
    let mut name_end: usize = name_start + 1;
    while name_end < len && !ends_tag_name_byte(bytes[name_end])
        invariant
            name_start < name_end <= len,
            len == bytes@.len(),
            bytes@ == input@,
            name_end_from(input@, name_start as int) == name_end_from(input@, name_end as int),
        decreases len - name_end,
    {
        name_end = name_end + 1;
    }
    if name_end >= len {
        return TagScan::Incomplete;
    }
    match find_tag_end(bytes, name_end) {
        None => TagScan::Incomplete,
        Some(gt) => {
            let name = Range { start: name_start, end: name_end };
            let name_bytes = input.slice(name);
            let info = TagNameInfo { name, name_hash: name_hash(name_bytes.as_slice()) };
            let hint = if is_end {
                TagHint::EndTag(info)
            } else {
                TagHint::StartTag(info)
            };
            TagScan::Tag { hint, tag_end: gt + 1 }
        },
    }
}

} // verus!
