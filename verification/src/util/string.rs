//! Table case and plural forms of names.
use vstd::prelude::*;
use vstd::string::StringExecFns;

verus! {

/// Whether `c` has the Unicode property `Uppercase`, as `char::is_uppercase`
/// decides it.
pub uninterp spec fn is_uppercase(c: char) -> bool;

/// `c` with an ASCII capital letter turned into the small letter; every
/// other character is left as it is.
pub open spec fn ascii_lowercase(c: char) -> char {
    if 'A' <= c <= 'Z' {
        ((c as u8) + 32) as char
    } else {
        c
    }
}

/// `s` with each ASCII capital letter turned into the small letter.
pub open spec fn ascii_lowercase_of(s: Seq<char>) -> Seq<char> {
    Seq::new(s.len(), |i: int| ascii_lowercase(s[i]))
}

/// `char::is_uppercase` decides the Unicode property `Uppercase`.
pub assume_specification[ char::is_uppercase ](c: char) -> (b: bool)
    ensures
        b == is_uppercase(c),
;

/// `char::to_ascii_lowercase` maps `A` to `Z` onto `a` to `z` and leaves
/// every other character unchanged.
pub assume_specification[ char::to_ascii_lowercase ](c: &char) -> (r: char)
    ensures
        r == ascii_lowercase(*c),
;

/// `str`'s `==`: two string slices are equal exactly when they hold the
/// same characters.
pub assume_specification[ <str as PartialEq>::eq ](a: &str, b: &str) -> (r: bool)
    ensures
        r == (a@ == b@),
;

/// `str::to_ascii_lowercase` gives a copy of the string in which `A` to `Z`
/// are mapped onto `a` to `z` and every other character is unchanged.
pub assume_specification[ str::to_ascii_lowercase ](s: &str) -> (r: std::string::String)
    ensures
        r@ == ascii_lowercase_of(s@),
;

/// `String::push` appends the character to the end of the string.
pub assume_specification[ std::string::String::push ](s: &mut std::string::String, c: char)
    ensures
        final(s)@ == old(s)@.push(c),
;

/// `str::ends_with`, for a pattern that is one character: whether the
/// string's last character is `c`.
#[verifier::external_body]
fn ends_with_char(s: &str, c: char) -> (b: bool)
    ensures
        b == (s@.len() > 0 && s@.last() == c),
{
    s.ends_with(c)
}

/// What the character at position `i` of `s` contributes to the table case
/// of `s`: its lowercase form, after an underscore where it is an uppercase
/// character that does not follow an underscore or start the name.
pub open spec fn table_case_at(s: Seq<char>, i: int) -> Seq<char> {
    let prev = if i == 0 { '_' } else { s[i - 1] };
    if is_uppercase(s[i]) && prev != '_' {
        seq!['_', ascii_lowercase(s[i])]
    } else {
        seq![ascii_lowercase(s[i])]
    }
}

/// The table case of the first `n` characters of `s`.
pub open spec fn table_case_prefix(s: Seq<char>, n: int) -> Seq<char>
    decreases n,
{
    if n <= 0 {
        Seq::empty()
    } else {
        table_case_prefix(s, n - 1) + table_case_at(s, n - 1)
    }
}

/// The table case of `s`: `MyUser` becomes `my_user`.
pub open spec fn table_case_of(s: Seq<char>) -> Seq<char> {
    table_case_prefix(s, s.len() as int)
}

/// The plural of `s`: `s` itself where it ends in `s`, else `s` followed by
/// an `s`.
pub open spec fn plural_of(s: Seq<char>) -> Seq<char> {
    if s.len() > 0 && s.last() == 's' {
        s
    } else {
        s.push('s')
    }
}

/// The table case of `s`.
pub fn table_case(s: &str) -> (r: String)
    ensures
        r@ == table_case_of(s@),
{
    let mut out = String::new();
    let mut prev_char = '_';
    for c in it: s.chars()
        invariant
            it.seq() == s@,
            out@ == table_case_prefix(s@, it.index() as int),
            prev_char == (if it.index() == 0 { '_' } else { s@[it.index() - 1] }),
    {
        if c.is_uppercase() && prev_char != '_' {
            out.push('_');
        }
        out.push(c.to_ascii_lowercase());
        prev_char = c;
    }
    out
}

/// Conversion of a name to table case.
pub trait ToTableCase {
    /// The table case of the name.
    fn to_table_case(self) -> String;
}

impl<S: Into<String>> ToTableCase for S {
    fn to_table_case(self) -> (r: String)
        ensures
            exists|s: String| call_ensures(S::into, (self,), s) && r@ == table_case_of(s@),
    {
        let s: String = self.into();
        assert(call_ensures(S::into, (self,), s));
        table_case(s.as_str())
    }
}

/// Conversion of a name to its plural.
pub trait ToPlural {
    /// The plural of the name.
    spec fn plural(&self) -> Seq<char>;

    /// The plural of the name.
    fn to_plural(&self) -> (r: String)
        ensures
            r@ == self.plural(),
    ;
}

impl ToPlural for String {
    open spec fn plural(&self) -> Seq<char> {
        plural_of(self@)
    }

    fn to_plural(&self) -> (r: String) {
        if ends_with_char(self.as_str(), 's') {
            self.clone()
        } else {
            let mut r = self.clone();
            r.push('s');
            r
        }
    }
}

} // verus!
