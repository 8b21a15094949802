//! Interpolation methods, chosen by name.
use vstd::prelude::*;

use crate::EqError;
use crate::Result;

verus! {

/// The one-dimensional interpolation methods that the backend offers.
#[derive(Clone, Copy, Debug, PartialEq, Eq, Structural)]
pub enum Method {
    Linear,
    Cubic,
    CubicPeriodic,
    Akima,
    AkimaPeriodic,
    Steffen,
}

/// The two-dimensional interpolation methods that the backend offers.
#[derive(Clone, Copy, Debug, PartialEq, Eq, Structural)]
pub enum Method2d {
    Bilinear,
    Bicubic,
}

/// `a` is the letter `b` up to ASCII case, where `b` is written in lower case.
pub open spec fn same_letter(a: char, b: char) -> bool {
    a == b || ('a' <= b <= 'z' && a as u32 + 32 == b as u32)
}

/// `s` spells the lower-case word `word`, ignoring ASCII case.
pub open spec fn spells(s: Seq<char>, word: Seq<char>) -> bool {
    s.len() == word.len() && forall|i: int| 0 <= i < s.len() ==> same_letter(s[i], word[i])
}

/// The one-dimensional method that a name denotes, ignoring ASCII case.
pub open spec fn method_named(s: Seq<char>) -> Option<Method> {
    if spells(s, "linear"@) {
        Some(Method::Linear)
    } else if spells(s, "cubic"@) {
        Some(Method::Cubic)
    } else if spells(s, "cubicperiodic"@) {
        Some(Method::CubicPeriodic)
    } else if spells(s, "akima"@) {
        Some(Method::Akima)
    } else if spells(s, "akimaperiodic"@) {
        Some(Method::AkimaPeriodic)
    } else if spells(s, "steffen"@) {
        Some(Method::Steffen)
    } else {
        None
    }
}

/// The two-dimensional method that a name denotes, ignoring ASCII case.
pub open spec fn method2d_named(s: Seq<char>) -> Option<Method2d> {
    if spells(s, "bilinear"@) {
        Some(Method2d::Bilinear)
    } else if spells(s, "bicubic"@) {
        Some(Method2d::Bicubic)
    } else {
        None
    }
}

/// `r` is the refusal of the unknown method name `name`.
pub open spec fn refuses_name<T>(r: Result<T>, name: Seq<char>) -> bool {
    r matches Err(EqError::UnknownMethod(n)) && n@ == name
}

fn chars_of(s: &str) -> (r: Vec<char>)
    ensures
        r@ == s@,
{
    let mut r: Vec<char> = Vec::new();
    for c in it: s.chars()
        invariant
            r@ == it.seq().take(it.index() as int),
    {
        r.push(c);
    }
    r
}

fn letter_matches(a: char, b: char) -> (r: bool)
    ensures
        r == same_letter(a, b),
{
    a == b || ('a' <= b && b <= 'z' && (a as u32) + 32 == (b as u32))
}

/// Whether `name` spells the lower-case `word`, ignoring ASCII case.
fn name_is(name: &Vec<char>, word: &str) -> (r: bool)
    ensures
        r == spells(name@, word@),
{
    let w = chars_of(word);
    if name.len() != w.len() {
        return false;
    }
    let mut i: usize = 0;
    while i < name.len()
        invariant
            name@.len() == w@.len(),
            w@ == word@,
            0 <= i <= name@.len(),
            forall|k: int| 0 <= k < i ==> same_letter(name@[k], w@[k]),
        decreases name@.len() - i,
    {
        if !letter_matches(name[i], w[i]) {
            return false;
        }
        i += 1;
    }
    true
}

impl Method {
    /// The method that `name` denotes, ignoring ASCII case: one of `linear`,
    /// `cubic`, `cubicperiodic`, `akima`, `akimaperiodic` and `steffen`.
    /// Any other name is an error, never a fallback to some default.
    pub fn from_name(name: &str) -> (r: Result<Method>)
        ensures
            method_named(name@) matches Some(m) ==> r == Ok::<Method, EqError>(m),
            method_named(name@) is None ==> refuses_name(r, name@),
    {
        let s = chars_of(name);
        if name_is(&s, "linear") {
            Ok(Method::Linear)
        } else if name_is(&s, "cubic") {
            Ok(Method::Cubic)
        } else if name_is(&s, "cubicperiodic") {
            Ok(Method::CubicPeriodic)
        } else if name_is(&s, "akima") {
            Ok(Method::Akima)
        } else if name_is(&s, "akimaperiodic") {
            Ok(Method::AkimaPeriodic)
        } else if name_is(&s, "steffen") {
            Ok(Method::Steffen)
        } else {
            Err(EqError::UnknownMethod(name.to_owned()))
        }
    }
}

impl Method2d {
    /// The method that `name` denotes, ignoring ASCII case: `bilinear` or
    /// `bicubic`. Any other name is an error.
    pub fn from_name(name: &str) -> (r: Result<Method2d>)
        ensures
            method2d_named(name@) matches Some(m) ==> r == Ok::<Method2d, EqError>(m),
            method2d_named(name@) is None ==> refuses_name(r, name@),
    {
        let s = chars_of(name);
        if name_is(&s, "bilinear") {
            Ok(Method2d::Bilinear)
        } else if name_is(&s, "bicubic") {
            Ok(Method2d::Bicubic)
        } else {
            Err(EqError::UnknownMethod(name.to_owned()))
        }
    }
}

} // verus!
