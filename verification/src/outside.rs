//! The calls that leave this crate. Verus takes the contracts in this file on
//! trust: each one restates what the called function's own source or
//! documentation says, and nothing here is proved.

use vstd::prelude::*;

verus! {

/// The letters `a` to `z` and `A` to `Z`, and the digits.
pub open spec fn is_alphanumeric(c: char) -> bool {
    ('a' <= c && c <= 'z') || ('A' <= c && c <= 'Z') || ('0' <= c && c <= '9')
}

/// `String::push` of the standard library: the character is appended to the
/// end of the string, and the rest of the string stays as it was.
pub assume_specification[ String::push ](s: &mut String, c: char)
    ensures
        final(s)@ == old(s)@.push(c),
;

/// One draw from `rand::distributions::Alphanumeric` on the thread's own
/// generator (`rand::thread_rng`). The distribution picks a byte out of the 62
/// ASCII letters and digits; which one is left open, so two calls may differ.
#[verifier::external_body]
pub(crate) fn sample_alphanumeric() -> (c: char)
    ensures
        is_alphanumeric(c),
{
    char::from(rand::Rng::sample(&mut rand::thread_rng(), rand::distributions::Alphanumeric))
}

/// `rustix::process::Pid::from_raw`: a raw process id is accepted exactly when
/// it is positive, and the accepted id holds the same number.
#[verifier::external_body]
pub(crate) fn checked_pid(raw: i32) -> (r: Option<i32>)
    ensures
        r == (if raw > 0 {
            Some(raw)
        } else {
            None::<i32>
        }),
{
    rustix::process::Pid::from_raw(raw).map(|pid| pid.as_raw_nonzero().get())
}

/// The path that `std::path::Path::join` gives for a base and what is joined
/// to it, both as text. On the systems that this crate is for, the result is a
/// function of the two texts alone.
pub uninterp spec fn path_join(base: Seq<char>, tail: Seq<char>) -> Seq<char>;

/// `std::path::Path::join`, on paths held as text: the base with the tail
/// adjoined, as the standard library builds it.
#[verifier::external_body]
pub(crate) fn join_path(base: &str, tail: &str) -> (r: String)
    ensures
        r@ == path_join(base@, tail@),
{
    std::path::Path::new(base).join(tail).to_string_lossy().into_owned()
}

/// What `std::path::Path::file_stem` gives for a path held as text: the file
/// name without its last extension, or nothing where the path has no file
/// name.
pub uninterp spec fn path_file_stem(path: Seq<char>) -> Option<Seq<char>>;

/// `std::path::Path::file_stem`, on a path held as text.
#[verifier::external_body]
pub(crate) fn file_stem(path: &str) -> (r: Option<String>)
    ensures
        match r {
            Some(stem) => path_file_stem(path@) == Some(stem@),
            None => path_file_stem(path@) is None,
        },
{
    std::path::Path::new(path).file_stem().map(|stem| stem.to_string_lossy().into_owned())
}

} // verus!
