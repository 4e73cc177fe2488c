//! Trusted declarations for the fixed-capacity containers of the `heapless`
//! crate that the shared state and the status messages are stored in.
//!
//! Each wrapper's contract states what the corresponding `heapless` method
//! does to the container's contents; Verus believes the contracts and the
//! rest of the crate is verified against them.

use vstd::prelude::*;
use crate::N_CHANNELS;
use crate::N_LINES;
use crate::MSG_CAP;

verus! {

#[verifier::external_type_specification]
#[verifier::external_body]
#[verifier::reject_recursive_types(T)]
pub struct ExHeaplessVec<T, const N: usize>(heapless::Vec<T, N>);

#[verifier::external_type_specification]
#[verifier::external_body]
pub struct ExHeaplessString<const N: usize>(heapless::String<N>);

/// The readings held by a sample vector, oldest-pushed first.
pub uninterp spec fn sample_elems(v: heapless::Vec<u16, N_CHANNELS>) -> Seq<u16>;

/// The levels held by a digital line vector, oldest-pushed first.
pub uninterp spec fn line_elems(v: heapless::Vec<bool, N_LINES>) -> Seq<bool>;

/// The characters held by a status message.
pub uninterp spec fn msg_chars(s: heapless::String<MSG_CAP>) -> Seq<char>;

/// Relies on `heapless::Vec::new`: the new vector is empty.
#[verifier::external_body]
pub fn sample_vec_new() -> (v: heapless::Vec<u16, N_CHANNELS>)
    ensures
        sample_elems(v) =~= Seq::<u16>::empty(),
{
    heapless::Vec::new()
}

/// Relies on `heapless::Vec::push`: appends at the back when below the
/// capacity `N_CHANNELS`, and leaves the vector unchanged (returning the item)
/// when full.
#[verifier::external_body]
pub fn sample_vec_push(v: &mut heapless::Vec<u16, N_CHANNELS>, x: u16) -> (ok: bool)
    ensures
        sample_elems(*old(v)).len() < N_CHANNELS ==> ok && sample_elems(*final(v))
            =~= sample_elems(*old(v)).push(x),
        sample_elems(*old(v)).len() >= N_CHANNELS ==> !ok && sample_elems(*final(v))
            =~= sample_elems(*old(v)),
{
    v.push(x).is_ok()
}

/// Relies on indexing through `heapless::Vec`'s slice view: returns the
/// element at `i`.
#[verifier::external_body]
pub fn sample_vec_get(v: &heapless::Vec<u16, N_CHANNELS>, i: usize) -> (x: u16)
    requires
        i < sample_elems(*v).len(),
    ensures
        x == sample_elems(*v)[i as int],
{
    v[i]
}

/// Relies on `heapless::Vec`'s slice view: returns the number of elements.
#[verifier::external_body]
pub fn sample_vec_len(v: &heapless::Vec<u16, N_CHANNELS>) -> (n: usize)
    ensures
        n == sample_elems(*v).len(),
{
    v.len()
}

/// Relies on `heapless::Vec::clone`: the clone holds the same elements.
#[verifier::external_body]
pub fn sample_vec_clone(v: &heapless::Vec<u16, N_CHANNELS>) -> (r: heapless::Vec<u16, N_CHANNELS>)
    ensures
        sample_elems(r) =~= sample_elems(*v),
{
    v.clone()
}

/// Relies on `heapless::Vec::new`: the new vector is empty.
#[verifier::external_body]
pub fn line_vec_new() -> (v: heapless::Vec<bool, N_LINES>)
    ensures
        line_elems(v) =~= Seq::<bool>::empty(),
{
    heapless::Vec::new()
}

/// Relies on `heapless::Vec::push`: appends at the back when below the
/// capacity `N_LINES`, and leaves the vector unchanged when full.
#[verifier::external_body]
pub fn line_vec_push(v: &mut heapless::Vec<bool, N_LINES>, x: bool) -> (ok: bool)
    ensures
        line_elems(*old(v)).len() < N_LINES ==> ok && line_elems(*final(v))
            =~= line_elems(*old(v)).push(x),
        line_elems(*old(v)).len() >= N_LINES ==> !ok && line_elems(*final(v))
            =~= line_elems(*old(v)),
{
    v.push(x).is_ok()
}

/// Relies on indexing through `heapless::Vec`'s slice view: returns the
/// element at `i`.
#[verifier::external_body]
pub fn line_vec_get(v: &heapless::Vec<bool, N_LINES>, i: usize) -> (x: bool)
    requires
        i < line_elems(*v).len(),
    ensures
        x == line_elems(*v)[i as int],
{
    v[i]
}

/// Relies on assignment through `heapless::Vec`'s mutable slice view:
/// overwrites the element at `i` and nothing else.
#[verifier::external_body]
pub fn line_vec_set(v: &mut heapless::Vec<bool, N_LINES>, i: usize, x: bool)
    requires
        i < line_elems(*old(v)).len(),
    ensures
        line_elems(*final(v)) =~= line_elems(*old(v)).update(i as int, x),
{
    v[i] = x;
}

/// Relies on `heapless::Vec::clone`: the clone holds the same elements.
#[verifier::external_body]
pub fn line_vec_clone(v: &heapless::Vec<bool, N_LINES>) -> (r: heapless::Vec<bool, N_LINES>)
    ensures
        line_elems(r) =~= line_elems(*v),
{
    v.clone()
}

/// Relies on `heapless::String::new`: the new string is empty.
#[verifier::external_body]
pub fn msg_new() -> (s: heapless::String<MSG_CAP>)
    ensures
        msg_chars(s) =~= Seq::<char>::empty(),
{
    heapless::String::new()
}

/// Relies on `heapless::String::push`: an ASCII character takes one byte,
/// so on an ASCII string with room left the push appends the
/// character; on a full one it fails and changes nothing.
#[verifier::external_body]
pub fn msg_push(s: &mut heapless::String<MSG_CAP>, c: char) -> (ok: bool)
    requires
        c <= '\u{7f}',
        vstd::utf8::is_ascii_chars(msg_chars(*old(s))),
    ensures
        msg_chars(*old(s)).len() < MSG_CAP ==> ok && msg_chars(*final(s))
            =~= msg_chars(*old(s)).push(c),
        msg_chars(*old(s)).len() >= MSG_CAP ==> !ok && msg_chars(*final(s))
            =~= msg_chars(*old(s)),
{
    s.push(c).is_ok()
}

/// Relies on `heapless::String::push_str`: all-or-nothing append; for ASCII
/// text the byte count equals the character count, so the append succeeds
/// exactly when the combined length fits in the capacity `MSG_CAP`.
#[verifier::external_body]
pub fn msg_push_str(s: &mut heapless::String<MSG_CAP>, t: &str) -> (ok: bool)
    requires
        vstd::string::is_ascii(t),
        vstd::utf8::is_ascii_chars(msg_chars(*old(s))),
    ensures
        msg_chars(*old(s)).len() + t@.len() <= MSG_CAP ==> ok && msg_chars(*final(s))
            =~= msg_chars(*old(s)) + t@,
        msg_chars(*old(s)).len() + t@.len() > MSG_CAP ==> !ok && msg_chars(*final(s))
            =~= msg_chars(*old(s)),
{
    s.push_str(t).is_ok()
}

} // verus!
