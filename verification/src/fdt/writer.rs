//! What this library relies on from `vm_fdt::FdtWriter`.
//!
//! The writer is opaque to Verus.  Its state is described by the sequence of
//! calls made on it (`fdt_contents`), each recorded as an [`FdtToken`]; the blob
//! that `finish` emits is named by `fdt_blob`, a function of that sequence.
//! When `property` accepts a property is stated by `fdt_property_accepted`.
use vstd::prelude::*;

verus! {

/// Largest value of `fdt_size_bound` for which the writer is sure not to hit its
/// 32-bit size limits: the blob is at most `60 + fdt_size_bound(tokens)` bytes
/// (40 bytes of header, 16 of memory reservation map, 4 for the end tag).
pub const FDT_SIZE_LIMIT: u64 = 0xffff_ffc3;

/// Deepest node nesting that `vm_fdt` accepts.
pub const FDT_MAX_NODE_DEPTH: u64 = 64;

/// Longest node or property name that `vm_fdt` accepts (in bytes).
pub const FDT_NAME_MAX_LEN: u64 = 31;

/// One call on an `FdtWriter`, as far as the emitted blob is concerned.
pub enum FdtToken {
    /// `begin_node(name)` succeeded.
    BeginNode(Seq<char>),
    /// `end_node` succeeded.
    EndNode,
    /// `property_null(name)` succeeded.
    Null(Seq<char>),
    /// `property_string(name, value)` succeeded.
    Str(Seq<char>, Seq<char>),
    /// `property_string_list(name, values)` succeeded.
    StrList(Seq<char>, Seq<Seq<char>>),
    /// `property_u32(name, value)` succeeded.
    U32(Seq<char>, u32),
    /// `property_array_u32(name, cells)` succeeded.
    ArrayU32(Seq<char>, Seq<u32>),
    /// `property_array_u64(name, cells)` succeeded.
    ArrayU64(Seq<char>, Seq<u64>),
    /// `property_phandle(value)` succeeded.
    Phandle(u32),
    /// A call returned an error.
    Failed,
}

/// The calls made so far on a writer made by `FdtWriter::new`, in order.
pub uninterp spec fn fdt_contents(w: vm_fdt::FdtWriter) -> Seq<FdtToken>;

/// The nesting depth recorded in a node handle returned by `begin_node`.
pub uninterp spec fn fdt_node_depth(n: vm_fdt::FdtWriterNode) -> int;

/// The bytes that `finish` emits for a writer whose calls were `tokens`.
pub uninterp spec fn fdt_blob(tokens: Seq<FdtToken>) -> Seq<u8>;

// ----------------------------------------------------------------------------
// State that the writer derives from its calls.

/// Change of the open-node depth made by one call.
pub open spec fn fdt_token_depth_delta(t: FdtToken) -> int {
    match t {
        FdtToken::BeginNode(_) => 1,
        FdtToken::EndNode => -1,
        _ => 0,
    }
}

/// Number of nodes begun and not yet ended.
pub open spec fn fdt_depth(t: Seq<FdtToken>) -> int
    decreases t.len(),
{
    if t.len() == 0 {
        0
    } else {
        fdt_depth(t.drop_last()) + fdt_token_depth_delta(t.last())
    }
}

/// No call has failed.
pub open spec fn fdt_healthy(t: Seq<FdtToken>) -> bool
    decreases t.len(),
{
    if t.len() == 0 {
        true
    } else {
        fdt_healthy(t.drop_last()) && t.last() != FdtToken::Failed
    }
}

/// Phandle values already written.
pub open spec fn fdt_phandles(t: Seq<FdtToken>) -> Set<u32>
    decreases t.len(),
{
    if t.len() == 0 {
        Set::empty()
    } else {
        match t.last() {
            FdtToken::Phandle(v) => fdt_phandles(t.drop_last()).insert(v),
            _ => fdt_phandles(t.drop_last()),
        }
    }
}

/// The writer takes properties now: a node is open and none has been ended since
/// the last one was begun.
pub open spec fn fdt_props_allowed(t: Seq<FdtToken>) -> bool {
    &&& fdt_depth(t) > 0
    &&& !(t.len() > 0 && t.last() == FdtToken::EndNode)
}

/// Characters that `vm_fdt` accepts in a property name.
pub open spec fn fdt_prop_char_ok(c: char) -> bool {
    ('0' <= c <= '9') || ('a' <= c <= 'z') || ('A' <= c <= 'Z') || c == ',' || c == '.' || c == '_'
        || c == '+' || c == '?' || c == '#' || c == '-'
}

/// A property name that `vm_fdt` accepts.
pub open spec fn fdt_prop_name_ok(name: Seq<char>) -> bool {
    &&& 0 < name.len() <= FDT_NAME_MAX_LEN
    &&& forall|i: int| 0 <= i < name.len() ==> #[trigger] fdt_prop_char_ok(name[i])
}

/// Characters that `vm_fdt` accepts in a node name and its unit address.
pub open spec fn fdt_node_char_ok(c: char) -> bool {
    ('0' <= c <= '9') || ('a' <= c <= 'z') || ('A' <= c <= 'Z') || c == ',' || c == '.' || c == '_'
        || c == '+' || c == '-'
}

/// Every character is accepted in a node name.
pub open spec fn fdt_node_chars_ok(s: Seq<char>) -> bool {
    forall|i: int| 0 <= i < s.len() ==> #[trigger] fdt_node_char_ok(s[i])
}

/// The part of a node name before the `@`, as `vm_fdt` accepts it.
pub open spec fn fdt_node_base_ok(s: Seq<char>) -> bool {
    &&& 0 < s.len() <= FDT_NAME_MAX_LEN
    &&& (('a' <= s[0] <= 'z') || ('A' <= s[0] <= 'Z'))
    &&& fdt_node_chars_ok(s)
}

/// A node name that `vm_fdt` accepts: empty, or a base name, optionally followed
/// by `@` and a unit address.
pub open spec fn fdt_node_name_ok(name: Seq<char>) -> bool {
    ||| name.len() == 0
    ||| fdt_node_base_ok(name)
    ||| exists|k: int|
        0 <= k < name.len() && name[k] == '@' && fdt_node_base_ok(#[trigger] name.take(k))
            && fdt_node_chars_ok(name.skip(k + 1))
}

/// A string holds no NUL character.
pub open spec fn fdt_nul_free(s: Seq<char>) -> bool {
    forall|i: int| 0 <= i < s.len() ==> s[i] != '\0'
}

/// A bound on the bytes that one call adds to the blob: 12 bytes of tag, length
/// and name offset, the value and up to 3 bytes of padding, and the name in the
/// strings block (at most 4 bytes per character and a NUL).
pub open spec fn fdt_prop_cost(name: Seq<char>, value_len: nat) -> nat {
    16 + value_len + 4 * name.len()
}

/// Bytes of a list of strings, NULs included, bounded by 4 bytes per character.
pub open spec fn fdt_str_list_len(ss: Seq<Seq<char>>) -> nat
    decreases ss.len(),
{
    if ss.len() == 0 {
        0
    } else {
        fdt_str_list_len(ss.drop_last()) + 4 * ss.last().len() + 1
    }
}

/// A bound on the bytes that one call adds to the blob.
pub open spec fn fdt_token_cost(t: FdtToken) -> nat {
    match t {
        FdtToken::BeginNode(name) => 8 + 4 * name.len(),
        FdtToken::EndNode => 4,
        FdtToken::Null(name) => fdt_prop_cost(name, 0),
        FdtToken::Str(name, v) => fdt_prop_cost(name, 4 * v.len() + 1),
        FdtToken::StrList(name, vs) => fdt_prop_cost(name, fdt_str_list_len(vs)),
        FdtToken::U32(name, _) => fdt_prop_cost(name, 4),
        FdtToken::ArrayU32(name, cells) => fdt_prop_cost(name, 4 * cells.len()),
        FdtToken::ArrayU64(name, cells) => fdt_prop_cost(name, 8 * cells.len()),
        FdtToken::Phandle(_) => 48,
        FdtToken::Failed => 0,
    }
}

/// A bound on the size of the blob, less its fixed 60 bytes.
pub open spec fn fdt_size_bound(t: Seq<FdtToken>) -> nat
    decreases t.len(),
{
    if t.len() == 0 {
        0
    } else {
        fdt_size_bound(t.drop_last()) + fdt_token_cost(t.last())
    }
}

pub broadcast proof fn lemma_size_push(t: Seq<FdtToken>, x: FdtToken)
    ensures
        #[trigger] fdt_size_bound(t.push(x)) == fdt_size_bound(t) + fdt_token_cost(x),
{
    assert(t.push(x).drop_last() =~= t);
}

pub broadcast proof fn lemma_size_concat(a: Seq<FdtToken>, b: Seq<FdtToken>)
    ensures
        #[trigger] fdt_size_bound(a + b) == fdt_size_bound(a) + fdt_size_bound(b),
    decreases b.len(),
{
    if b.len() == 0 {
        assert(a + b =~= a);
    } else {
        lemma_size_concat(a, b.drop_last());
        assert((a + b).drop_last() =~= a + b.drop_last());
    }
}

pub broadcast proof fn lemma_depth_push(t: Seq<FdtToken>, x: FdtToken)
    ensures
        #[trigger] fdt_depth(t.push(x)) == fdt_depth(t) + fdt_token_depth_delta(x),
{
    assert(t.push(x).drop_last() =~= t);
}

pub broadcast proof fn lemma_healthy_push(t: Seq<FdtToken>, x: FdtToken)
    ensures
        #[trigger] fdt_healthy(t.push(x)) == (fdt_healthy(t) && x != FdtToken::Failed),
{
    assert(t.push(x).drop_last() =~= t);
}

pub broadcast proof fn lemma_phandles_push(t: Seq<FdtToken>, x: FdtToken)
    ensures
        #[trigger] fdt_phandles(t.push(x)) == (match x {
            FdtToken::Phandle(v) => fdt_phandles(t).insert(v),
            _ => fdt_phandles(t),
        }),
{
    assert(t.push(x).drop_last() =~= t);
}

pub broadcast proof fn lemma_phandles_concat(a: Seq<FdtToken>, b: Seq<FdtToken>)
    ensures
        #[trigger] fdt_phandles(a + b) == fdt_phandles(a).union(fdt_phandles(b)),
    decreases b.len(),
{
    if b.len() == 0 {
        assert(a + b =~= a);
        assert(fdt_phandles(a).union(fdt_phandles(b)) =~= fdt_phandles(a));
    } else {
        lemma_phandles_concat(a, b.drop_last());
        assert((a + b).drop_last() =~= a + b.drop_last());
        match b.last() {
            FdtToken::Phandle(v) => {
                assert(fdt_phandles(a + b) =~= fdt_phandles(a).union(fdt_phandles(b)));
            },
            _ => {},
        }
    }
}

pub broadcast proof fn lemma_depth_concat(a: Seq<FdtToken>, b: Seq<FdtToken>)
    ensures
        #[trigger] fdt_depth(a + b) == fdt_depth(a) + fdt_depth(b),
    decreases b.len(),
{
    if b.len() == 0 {
        assert(a + b =~= a);
    } else {
        lemma_depth_concat(a, b.drop_last());
        assert((a + b).drop_last() =~= a + b.drop_last());
    }
}

pub broadcast proof fn lemma_healthy_concat(a: Seq<FdtToken>, b: Seq<FdtToken>)
    ensures
        #[trigger] fdt_healthy(a + b) == (fdt_healthy(a) && fdt_healthy(b)),
    decreases b.len(),
{
    if b.len() == 0 {
        assert(a + b =~= a);
    } else {
        lemma_healthy_concat(a, b.drop_last());
        assert((a + b).drop_last() =~= a + b.drop_last());
    }
}

/// The calls `f(0)`, `f(1)`, ..., `f(n - 1)`, one after the other.
pub open spec fn fdt_repeat(n: nat, f: spec_fn(nat) -> Seq<FdtToken>) -> Seq<FdtToken>
    decreases n,
{
    if n == 0 {
        Seq::empty()
    } else {
        fdt_repeat((n - 1) as nat, f) + f((n - 1) as nat)
    }
}

pub proof fn lemma_repeat_size_mono(i: nat, n: nat, f: spec_fn(nat) -> Seq<FdtToken>)
    requires
        i <= n,
    ensures
        fdt_size_bound(fdt_repeat(i, f)) <= fdt_size_bound(fdt_repeat(n, f)),
    decreases n,
{
    if i < n {
        lemma_repeat_size_mono(i, (n - 1) as nat, f);
        lemma_size_concat(fdt_repeat((n - 1) as nat, f), f((n - 1) as nat));
    }
}

pub proof fn lemma_repeat_depth(n: nat, f: spec_fn(nat) -> Seq<FdtToken>)
    requires
        forall|k: nat| k < n ==> fdt_depth(#[trigger] f(k)) == 0,
    ensures
        fdt_depth(fdt_repeat(n, f)) == 0,
    decreases n,
{
    if n > 0 {
        lemma_repeat_depth((n - 1) as nat, f);
        lemma_depth_concat(fdt_repeat((n - 1) as nat, f), f((n - 1) as nat));
    }
}

pub proof fn lemma_repeat_healthy(n: nat, f: spec_fn(nat) -> Seq<FdtToken>)
    requires
        forall|k: nat| k < n ==> fdt_healthy(#[trigger] f(k)),
    ensures
        fdt_healthy(fdt_repeat(n, f)),
    decreases n,
{
    if n > 0 {
        lemma_repeat_healthy((n - 1) as nat, f);
        lemma_healthy_concat(fdt_repeat((n - 1) as nat, f), f((n - 1) as nat));
    }
}

/// `run` occurs in `t` as consecutive calls.
pub open spec fn fdt_contains_run(t: Seq<FdtToken>, run: Seq<FdtToken>) -> bool {
    exists|k: int| 0 <= k && k + run.len() <= t.len() && #[trigger] t.subrange(k, k + run.len()) == run
}

pub proof fn lemma_contains_run_extend(t: Seq<FdtToken>, run: Seq<FdtToken>, pre: Seq<FdtToken>, post: Seq<FdtToken>)
    requires
        fdt_contains_run(t, run),
    ensures
        fdt_contains_run(pre + t + post, run),
{
    let k = choose|k: int| 0 <= k && k + run.len() <= t.len() && #[trigger] t.subrange(k, k + run.len()) == run;
    let u = pre + t + post;
    let k2 = pre.len() + k;
    assert(u.subrange(k2, k2 + run.len()) =~= t.subrange(k, k + run.len()));
}

pub proof fn lemma_repeat_contains(i: nat, n: nat, f: spec_fn(nat) -> Seq<FdtToken>)
    requires
        i < n,
    ensures
        fdt_contains_run(fdt_repeat(n, f), f(i)),
    decreases n,
{
    if i + 1 == n {
        let t = fdt_repeat(n, f);
        let k = fdt_repeat(i, f).len() as int;
        assert(t.subrange(k, k + f(i).len()) =~= f(i));
    } else {
        lemma_repeat_contains(i, (n - 1) as nat, f);
        lemma_contains_run_extend(fdt_repeat((n - 1) as nat, f), f(i), Seq::empty(), f((n - 1) as nat));
        assert(Seq::<FdtToken>::empty() + fdt_repeat((n - 1) as nat, f) + f((n - 1) as nat) =~= fdt_repeat(n, f));
    }
}

/// A node has been ended since the last one was begun.
pub open spec fn fdt_node_ended(t: Seq<FdtToken>) -> bool
    decreases t.len(),
{
    if t.len() == 0 {
        false
    } else {
        match t.last() {
            FdtToken::EndNode => true,
            FdtToken::BeginNode(_) => false,
            _ => fdt_node_ended(t.drop_last()),
        }
    }
}

/// The name of the property that a call writes, if it writes one.
pub open spec fn fdt_prop_name(t: FdtToken) -> Option<Seq<char>> {
    match t {
        FdtToken::Null(name) => Some(name),
        FdtToken::Str(name, _) => Some(name),
        FdtToken::StrList(name, _) => Some(name),
        FdtToken::U32(name, _) => Some(name),
        FdtToken::ArrayU32(name, _) => Some(name),
        FdtToken::ArrayU64(name, _) => Some(name),
        FdtToken::Phandle(_) => Some("phandle"@),
        _ => None,
    }
}

/// The property names in the strings block.
pub open spec fn fdt_prop_names(t: Seq<FdtToken>) -> Set<Seq<char>>
    decreases t.len(),
{
    if t.len() == 0 {
        Set::empty()
    } else {
        match fdt_prop_name(t.last()) {
            Some(name) => fdt_prop_names(t.drop_last()).insert(name),
            None => fdt_prop_names(t.drop_last()),
        }
    }
}

/// Bytes of the strings block: each property name once, with its NUL.  The
/// names that the writer accepts are ASCII, one byte per character.
pub open spec fn fdt_strings_len(t: Seq<FdtToken>) -> nat
    decreases t.len(),
{
    if t.len() == 0 {
        0
    } else {
        match fdt_prop_name(t.last()) {
            Some(name) => if fdt_prop_names(t.drop_last()).contains(name) {
                fdt_strings_len(t.drop_last())
            } else {
                fdt_strings_len(t.drop_last()) + name.len() + 1
            },
            None => fdt_strings_len(t.drop_last()),
        }
    }
}

pub broadcast proof fn lemma_node_ended_push(t: Seq<FdtToken>, x: FdtToken)
    ensures
        #[trigger] fdt_node_ended(t.push(x)) == match x {
            FdtToken::EndNode => true,
            FdtToken::BeginNode(_) => false,
            _ => fdt_node_ended(t),
        },
{
    assert(t.push(x).drop_last() =~= t);
}

/// Bytes of the names of the properties that the calls write, each counted
/// every time with its NUL.
pub open spec fn fdt_names_len(t: Seq<FdtToken>) -> nat
    decreases t.len(),
{
    if t.len() == 0 {
        0
    } else {
        match fdt_prop_name(t.last()) {
            Some(name) => fdt_names_len(t.drop_last()) + name.len() + 1,
            None => fdt_names_len(t.drop_last()),
        }
    }
}

pub broadcast proof fn lemma_names_len_push(t: Seq<FdtToken>, x: FdtToken)
    ensures
        #[trigger] fdt_names_len(t.push(x)) == fdt_names_len(t) + match fdt_prop_name(x) {
            Some(name) => name.len() + 1,
            None => 0,
        },
{
    assert(t.push(x).drop_last() =~= t);
}

pub broadcast proof fn lemma_names_len_concat(a: Seq<FdtToken>, b: Seq<FdtToken>)
    ensures
        #[trigger] fdt_names_len(a + b) == fdt_names_len(a) + fdt_names_len(b),
    decreases b.len(),
{
    if b.len() == 0 {
        assert(a + b =~= a);
    } else {
        lemma_names_len_concat(a, b.drop_last());
        assert((a + b).drop_last() =~= a + b.drop_last());
    }
}

/// The strings block holds each name once, so it is no longer than the names
/// counted every time.
pub broadcast proof fn lemma_strings_len_bound(t: Seq<FdtToken>)
    ensures
        #[trigger] fdt_strings_len(t) <= fdt_names_len(t),
    decreases t.len(),
{
    if t.len() > 0 {
        lemma_strings_len_bound(t.drop_last());
    }
}

/// Bytes of the UTF-8 encoding of a character.
pub open spec fn fdt_utf8_char_len(c: char) -> nat {
    if (c as u32) < 0x80 {
        1
    } else if (c as u32) < 0x800 {
        2
    } else if (c as u32) < 0x10000 {
        3
    } else {
        4
    }
}

/// Bytes of the UTF-8 encoding of a string.
pub open spec fn fdt_utf8_len(s: Seq<char>) -> nat
    decreases s.len(),
{
    if s.len() == 0 {
        0
    } else {
        fdt_utf8_len(s.drop_last()) + fdt_utf8_char_len(s.last())
    }
}

/// A character takes at most 4 bytes.
pub broadcast proof fn lemma_utf8_len_bound(s: Seq<char>)
    ensures
        #[trigger] fdt_utf8_len(s) <= 4 * s.len(),
    decreases s.len(),
{
    if s.len() > 0 {
        lemma_utf8_len_bound(s.drop_last());
    }
}

/// What the writer checks of a property, in one group.
pub broadcast group group_fdt_acceptance {
    lemma_node_ended_push,
    lemma_names_len_push,
    lemma_names_len_concat,
    lemma_strings_len_bound,
    lemma_utf8_len_bound,
}

/// Bytes of a list of strings, each with its NUL.
pub open spec fn fdt_utf8_list_len(ss: Seq<Seq<char>>) -> nat
    decreases ss.len(),
{
    if ss.len() == 0 {
        0
    } else {
        fdt_utf8_list_len(ss.drop_last()) + fdt_utf8_len(ss.last()) + 1
    }
}

/// Bytes of the value of the property that a call writes.
pub open spec fn fdt_value_len(t: FdtToken) -> nat {
    match t {
        FdtToken::Str(_, v) => fdt_utf8_len(v) + 1,
        FdtToken::StrList(_, vs) => fdt_utf8_list_len(vs),
        FdtToken::U32(_, _) => 4,
        FdtToken::ArrayU32(_, cells) => 4 * cells.len(),
        FdtToken::ArrayU64(_, cells) => 8 * cells.len(),
        FdtToken::Phandle(_) => 4,
        _ => 0,
    }
}

/// Whether `FdtWriter::property`, which every `property_*` method ends by
/// calling, accepts the property that `prop` records on a writer whose calls
/// were `tokens`: a node is open and has not been ended, the name is valid, the
/// value's length fits in 32 bits, and a name not yet in the strings block
/// finds that block's length within 32 bits.
#[verifier::opaque]
pub open spec fn fdt_property_accepted(tokens: Seq<FdtToken>, prop: FdtToken) -> bool {
    match fdt_prop_name(prop) {
        Some(name) => {
            &&& fdt_depth(tokens) > 0
            &&& !fdt_node_ended(tokens)
            &&& fdt_prop_name_ok(name)
            &&& fdt_value_len(prop) <= u32::MAX
            &&& (fdt_prop_names(tokens).contains(name) || fdt_strings_len(tokens) <= u32::MAX)
        },
        None => false,
    }
}

/// The writer accepts the call that `t` records after the calls `c`.
pub open spec fn fdt_call_ok(c: Seq<FdtToken>, t: FdtToken) -> bool {
    match t {
        FdtToken::BeginNode(name) => fdt_depth(c) < FDT_MAX_NODE_DEPTH && fdt_node_name_ok(name),
        FdtToken::EndNode => true,
        FdtToken::Str(_, v) => fdt_nul_free(v) && fdt_property_accepted(c, t),
        FdtToken::StrList(_, vs) => (forall|i: int| 0 <= i < vs.len() ==> fdt_nul_free(#[trigger] vs[i]))
            && fdt_property_accepted(c, t),
        FdtToken::Phandle(v) => !fdt_phandles(c).contains(v) && fdt_property_accepted(c, t),
        FdtToken::Failed => false,
        _ => fdt_property_accepted(c, t),
    }
}

/// Every call of `t` was accepted by the writer, each after the ones before.
pub open spec fn fdt_history_ok(t: Seq<FdtToken>) -> bool
    decreases t.len(),
{
    t.len() == 0 || (fdt_history_ok(t.drop_last()) && fdt_call_ok(t.drop_last(), t.last()))
}

pub broadcast proof fn lemma_history_push(t: Seq<FdtToken>, x: FdtToken)
    ensures
        #[trigger] fdt_history_ok(t.push(x)) == (fdt_history_ok(t) && fdt_call_ok(t, x)),
{
    assert(t.push(x).drop_last() =~= t);
}

/// Calls that were all accepted were accepted up to any point.
pub proof fn lemma_history_prefix(a: Seq<FdtToken>, b: Seq<FdtToken>)
    ensures
        fdt_history_ok(a + b) ==> fdt_history_ok(a),
    decreases b.len(),
{
    if b.len() == 0 {
        assert(a + b =~= a);
    } else {
        lemma_history_prefix(a, b.drop_last());
        assert((a + b).drop_last() =~= a + b.drop_last());
    }
}

/// The same, for the first `m` of `n` repeated runs.
pub proof fn lemma_history_repeat_prefix(c: Seq<FdtToken>, m: nat, n: nat, f: spec_fn(nat) -> Seq<FdtToken>)
    requires
        m <= n,
    ensures
        fdt_history_ok(c + fdt_repeat(n, f)) ==> fdt_history_ok(c + fdt_repeat(m, f)),
    decreases n,
{
    if m < n {
        lemma_history_repeat_prefix(c, m, (n - 1) as nat, f);
        lemma_history_prefix(c + fdt_repeat((n - 1) as nat, f), f((n - 1) as nat));
        assert(c + fdt_repeat(n, f) =~= (c + fdt_repeat((n - 1) as nat, f)) + f((n - 1) as nat));
    }
}

pub broadcast proof fn lemma_history_concat_push(a: Seq<FdtToken>, b: Seq<FdtToken>, x: FdtToken)
    ensures
        #![trigger fdt_history_ok(a + b.push(x))]
        a + b.push(x) == (a + b).push(x),
{
    assert(a + b.push(x) =~= (a + b).push(x));
}

pub broadcast proof fn lemma_history_concat_empty(a: Seq<FdtToken>)
    ensures
        #![trigger fdt_history_ok(a + Seq::<FdtToken>::empty())]
        a + Seq::<FdtToken>::empty() == a,
{
    assert(a + Seq::<FdtToken>::empty() =~= a);
}

pub broadcast group group_fdt_tokens {
    lemma_history_push,
    lemma_history_concat_push,
    lemma_history_concat_empty,
    lemma_size_push,
    lemma_size_concat,
    lemma_depth_push,
    lemma_healthy_push,
    lemma_phandles_push,
    lemma_phandles_concat,
    lemma_depth_concat,
    lemma_healthy_concat,
}

// ----------------------------------------------------------------------------
// Trusted items.

/// The writer type of `vm_fdt`.
#[verifier::external_type_specification]
#[verifier::external_body]
pub struct ExFdtWriter(vm_fdt::FdtWriter);

/// The handle of an open node of `vm_fdt`.
#[verifier::external_type_specification]
#[verifier::external_body]
pub struct ExFdtWriterNode(vm_fdt::FdtWriterNode);

/// The error type of `vm_fdt`.
#[verifier::external_type_specification]
#[verifier::external_body]
pub struct ExFdtError(vm_fdt::Error);

/// `FdtWriter::new` calls `new_with_mem_reserv(&[])`, which cannot fail: with no
/// reservation there is no overlap and the header offsets are small.  The new
/// writer has no calls recorded.
pub assume_specification[ vm_fdt::FdtWriter::new ]() -> (r: Result<vm_fdt::FdtWriter, vm_fdt::Error>)
    ensures
        r is Ok,
        r matches Ok(w) ==> fdt_contents(w) == Seq::<FdtToken>::empty(),
;

/// `begin_node` fails exactly when the depth is already 64, or the name holds
/// a NUL or is not a valid node name; otherwise it opens a node one level deeper.
/// A failed call writes nothing.
pub assume_specification[ vm_fdt::FdtWriter::begin_node ](
    w: &mut vm_fdt::FdtWriter,
    name: &str,
) -> (r: Result<vm_fdt::FdtWriterNode, vm_fdt::Error>)
    ensures
        r is Ok <==> (fdt_depth(fdt_contents(*old(w))) < FDT_MAX_NODE_DEPTH && fdt_node_name_ok(name@)),
        r matches Ok(n) ==> fdt_contents(*final(w)) == fdt_contents(*old(w)).push(
            FdtToken::BeginNode(name@),
        ) && fdt_node_depth(n) == fdt_depth(fdt_contents(*old(w))) + 1,
        r is Err ==> fdt_contents(*final(w)) == fdt_contents(*old(w)).push(FdtToken::Failed),
;

/// `end_node` succeeds exactly when the handle belongs to the innermost open node.
pub assume_specification[ vm_fdt::FdtWriter::end_node ](
    w: &mut vm_fdt::FdtWriter,
    node: vm_fdt::FdtWriterNode,
) -> (r: Result<(), vm_fdt::Error>)
    ensures
        r is Ok <==> fdt_node_depth(node) == fdt_depth(fdt_contents(*old(w))),
        r is Ok ==> fdt_contents(*final(w)) == fdt_contents(*old(w)).push(FdtToken::EndNode),
        r is Err ==> fdt_contents(*final(w)) == fdt_contents(*old(w)).push(FdtToken::Failed),
;

/// `property_null`: on success an empty property is recorded.  It calls
/// `property` and succeeds exactly when that accepts the property
/// (`fdt_property_accepted`); so it does when no call has failed, a node takes
/// properties, the name is valid and the blob stays within the size limit.
pub assume_specification[ vm_fdt::FdtWriter::property_null ](
    w: &mut vm_fdt::FdtWriter,
    name: &str,
) -> (r: Result<(), vm_fdt::Error>)
    ensures
        r is Ok ==> fdt_contents(*final(w)) == fdt_contents(*old(w)).push(FdtToken::Null(name@)),
        r is Ok <==> fdt_property_accepted(fdt_contents(*old(w)), FdtToken::Null(name@)),
        r is Err ==> fdt_contents(*final(w)) == fdt_contents(*old(w)).push(FdtToken::Failed),
        fdt_healthy(fdt_contents(*old(w))) && fdt_props_allowed(fdt_contents(*old(w)))
            && fdt_prop_name_ok(name@) && fdt_size_bound(
            fdt_contents(*old(w)).push(FdtToken::Null(name@)),
        ) <= FDT_SIZE_LIMIT ==> r is Ok,
;

/// `property_string`: as `property_null`; it fails first (`InvalidString`) when
/// the value holds a NUL.
pub assume_specification[ vm_fdt::FdtWriter::property_string ](
    w: &mut vm_fdt::FdtWriter,
    name: &str,
    val: &str,
) -> (r: Result<(), vm_fdt::Error>)
    ensures
        r is Ok ==> fdt_contents(*final(w)) == fdt_contents(*old(w)).push(
            FdtToken::Str(name@, val@),
        ),
        r is Ok <==> (fdt_nul_free(val@) && fdt_property_accepted(fdt_contents(*old(w)), FdtToken::Str(name@, val@))),
        r is Err ==> fdt_contents(*final(w)) == fdt_contents(*old(w)).push(FdtToken::Failed),
        fdt_healthy(fdt_contents(*old(w))) && fdt_props_allowed(fdt_contents(*old(w)))
            && fdt_prop_name_ok(name@) && fdt_nul_free(val@) && fdt_size_bound(
            fdt_contents(*old(w)).push(FdtToken::Str(name@, val@)),
        ) <= FDT_SIZE_LIMIT ==> r is Ok,
;

/// `property_string_list`: as `property_string`, for every string of the list.
pub assume_specification[ vm_fdt::FdtWriter::property_string_list ](
    w: &mut vm_fdt::FdtWriter,
    name: &str,
    values: Vec<String>,
) -> (r: Result<(), vm_fdt::Error>)
    ensures
        r is Ok ==> fdt_contents(*final(w)) == fdt_contents(*old(w)).push(
            FdtToken::StrList(name@, values@.map_values(|s: String| s@)),
        ),
        r is Ok <==> ((forall|i: int| 0 <= i < values@.len() ==> fdt_nul_free(#[trigger] values@[i]@))
            && fdt_property_accepted(fdt_contents(*old(w)), FdtToken::StrList(name@, values@.map_values(|s: String| s@)))),
        r is Err ==> fdt_contents(*final(w)) == fdt_contents(*old(w)).push(FdtToken::Failed),
        fdt_healthy(fdt_contents(*old(w))) && fdt_props_allowed(fdt_contents(*old(w)))
            && fdt_prop_name_ok(name@) && (forall|i: int|
            0 <= i < values@.len() ==> fdt_nul_free(#[trigger] values@[i]@)) && fdt_size_bound(
            fdt_contents(*old(w)).push(
                FdtToken::StrList(name@, values@.map_values(|s: String| s@)),
            ),
        ) <= FDT_SIZE_LIMIT ==> r is Ok,
;

/// `property_u32`: as `property_null`, with a 4-byte value.
pub assume_specification[ vm_fdt::FdtWriter::property_u32 ](
    w: &mut vm_fdt::FdtWriter,
    name: &str,
    val: u32,
) -> (r: Result<(), vm_fdt::Error>)
    ensures
        r is Ok ==> fdt_contents(*final(w)) == fdt_contents(*old(w)).push(
            FdtToken::U32(name@, val),
        ),
        r is Ok <==> fdt_property_accepted(fdt_contents(*old(w)), FdtToken::U32(name@, val)),
        r is Err ==> fdt_contents(*final(w)) == fdt_contents(*old(w)).push(FdtToken::Failed),
        fdt_healthy(fdt_contents(*old(w))) && fdt_props_allowed(fdt_contents(*old(w)))
            && fdt_prop_name_ok(name@) && fdt_size_bound(
            fdt_contents(*old(w)).push(FdtToken::U32(name@, val)),
        ) <= FDT_SIZE_LIMIT ==> r is Ok,
;

/// `property_array_u32`: as `property_null`, with the cells as value.
pub assume_specification[ vm_fdt::FdtWriter::property_array_u32 ](
    w: &mut vm_fdt::FdtWriter,
    name: &str,
    cells: &[u32],
) -> (r: Result<(), vm_fdt::Error>)
    ensures
        r is Ok ==> fdt_contents(*final(w)) == fdt_contents(*old(w)).push(
            FdtToken::ArrayU32(name@, cells@),
        ),
        r is Ok <==> fdt_property_accepted(fdt_contents(*old(w)), FdtToken::ArrayU32(name@, cells@)),
        r is Err ==> fdt_contents(*final(w)) == fdt_contents(*old(w)).push(FdtToken::Failed),
        fdt_healthy(fdt_contents(*old(w))) && fdt_props_allowed(fdt_contents(*old(w)))
            && fdt_prop_name_ok(name@) && fdt_size_bound(
            fdt_contents(*old(w)).push(FdtToken::ArrayU32(name@, cells@)),
        ) <= FDT_SIZE_LIMIT ==> r is Ok,
;

/// `property_array_u64`: as `property_null`, with the cells as value.
pub assume_specification[ vm_fdt::FdtWriter::property_array_u64 ](
    w: &mut vm_fdt::FdtWriter,
    name: &str,
    cells: &[u64],
) -> (r: Result<(), vm_fdt::Error>)
    ensures
        r is Ok ==> fdt_contents(*final(w)) == fdt_contents(*old(w)).push(
            FdtToken::ArrayU64(name@, cells@),
        ),
        r is Ok <==> fdt_property_accepted(fdt_contents(*old(w)), FdtToken::ArrayU64(name@, cells@)),
        r is Err ==> fdt_contents(*final(w)) == fdt_contents(*old(w)).push(FdtToken::Failed),
        fdt_healthy(fdt_contents(*old(w))) && fdt_props_allowed(fdt_contents(*old(w)))
            && fdt_prop_name_ok(name@) && fdt_size_bound(
            fdt_contents(*old(w)).push(FdtToken::ArrayU64(name@, cells@)),
        ) <= FDT_SIZE_LIMIT ==> r is Ok,
;

/// `property_phandle`: a `phandle` property; it fails first when the value was
/// written before (`DuplicatePhandle`).  The value enters the writer's set of
/// phandles even when `property` then refuses the call, so the exact outcome is
/// stated only after calls that all succeeded.
pub assume_specification[ vm_fdt::FdtWriter::property_phandle ](
    w: &mut vm_fdt::FdtWriter,
    val: u32,
) -> (r: Result<(), vm_fdt::Error>)
    ensures
        r is Ok ==> fdt_contents(*final(w)) == fdt_contents(*old(w)).push(FdtToken::Phandle(val)),
        fdt_history_ok(fdt_contents(*old(w))) ==> (r is Ok <==> (!fdt_phandles(fdt_contents(*old(w))).contains(val)
            && fdt_property_accepted(fdt_contents(*old(w)), FdtToken::Phandle(val)))),
        r is Err ==> fdt_contents(*final(w)) == fdt_contents(*old(w)).push(FdtToken::Failed),
        fdt_phandles(fdt_contents(*old(w))).contains(val) ==> r is Err,
        fdt_healthy(fdt_contents(*old(w))) && fdt_props_allowed(fdt_contents(*old(w)))
            && !fdt_phandles(fdt_contents(*old(w))).contains(val) && fdt_size_bound(
            fdt_contents(*old(w)).push(FdtToken::Phandle(val)),
        ) <= FDT_SIZE_LIMIT ==> r is Ok,
;

/// `finish` emits the blob of the recorded calls.  It fails exactly when a node
/// is still open or the blob does not fit in 32 bits.
pub assume_specification[ vm_fdt::FdtWriter::finish ](
    w: vm_fdt::FdtWriter,
) -> (r: Result<Vec<u8>, vm_fdt::Error>)
    ensures
        r is Ok <==> (fdt_depth(fdt_contents(w)) == 0 && fdt_blob(fdt_contents(w)).len() <= u32::MAX),
        r matches Ok(blob) ==> blob@ == fdt_blob(fdt_contents(w)),
        fdt_depth(fdt_contents(w)) == 0 && fdt_size_bound(fdt_contents(w)) <= FDT_SIZE_LIMIT
            ==> r is Ok,
;

} // verus!
