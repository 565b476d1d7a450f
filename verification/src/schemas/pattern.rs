use vstd::prelude::*;
use vstd::std_specs::convert::FromSpecImpl;
use vstd::string::*;

use crate::schemas::text::all_digits;

verus! {

/// Whether a pattern is one of the four patterns of the data files, each a
/// short pattern without nested groups.
pub open spec fn known_pattern(pattern: Seq<char>) -> bool {
    pattern == str_pattern() || pattern == int_str_pattern() || pattern == num_str_pattern()
        || pattern == life_type_pattern()
}

/// Whether a text matches `^1|0$`: it starts with `1` or ends with `0`.
pub open spec fn str_text(t: Seq<char>) -> bool {
    t.len() > 0 && (t[0] == '1' || t.last() == '0')
}

/// Whether a text matches `^(-)?\d+$`: an optional minus sign, then one or
/// more ASCII digits and nothing else.
pub open spec fn int_str_text(t: Seq<char>) -> bool {
    let body = if t.len() > 0 && t[0] == '-' {
        t.drop_first()
    } else {
        t
    };
    body.len() > 0 && all_digits(body)
}

/// Whether a text matches `^\d+(\.\d+)?$`: one or more ASCII digits,
/// optionally followed by a dot and one or more digits, and nothing else.
pub open spec fn num_str_text(t: Seq<char>) -> bool {
    ||| (t.len() > 0 && all_digits(t))
    ||| exists|i: int|
        0 < i < t.len() - 1 && #[trigger] t[i] == '.' && all_digits(t.subrange(0, i)) && all_digits(
            t.subrange(i + 1, t.len() as int),
        )
}

/// Whether a text matches `n|m`: it holds an `n` or an `m`.
pub open spec fn life_type_text(t: Seq<char>) -> bool {
    t.contains('n') || t.contains('m')
}

/// Whether a text matches one of the four patterns of the data files.
pub open spec fn accepts(pattern: Seq<char>, text: Seq<char>) -> bool {
    if pattern == str_pattern() {
        str_text(text)
    } else if pattern == int_str_pattern() {
        int_str_text(text)
    } else if pattern == num_str_pattern() {
        num_str_text(text)
    } else if pattern == life_type_pattern() {
        life_type_text(text)
    } else {
        false
    }
}

/// Compiles `pattern` with `regress::Regex::new` and searches `text` with
/// `regress::Regex::find`.
///
/// Trusted: each of the four admitted patterns compiles, and the search
/// finds a match exactly where the text matches it in the ECMAScript sense
/// that `regress` follows (`^` and `$` at the ends of the text, `\d` an
/// ASCII digit, `|` between alternatives). Only these patterns are
/// admitted: `regress` parses a pattern by recursion, and a deeply nested
/// one could exhaust the stack.
#[verifier::external_body]
fn search_pattern(pattern: &str, text: &str) -> (r: Option<bool>)
    requires
        known_pattern(pattern@),
    ensures
        r == Some(accepts(pattern@, text@)),
{
    match regress::Regex::new(pattern) {
        Ok(re) => Some(re.find(text).is_some()),
        Err(_) => None,
    }
}

/// The error of a conversion from text, with its message.
#[derive(Debug, Clone)]
pub struct ConversionError {
    pub message: String,
}

impl View for ConversionError {
    type V = Seq<char>;

    open spec fn view(&self) -> Seq<char> {
        self.message@
    }
}

impl ConversionError {
    /// The error with the given message.
    pub fn new(message: &str) -> (r: ConversionError)
        ensures
            r@ == message@,
    {
        ConversionError { message: String::from_str(message) }
    }

    /// The message of the error.
    pub fn to_string(&self) -> (r: String)
        ensures
            r@ == self@,
    {
        self.message.clone()
    }
}

impl From<String> for ConversionError {
    fn from(message: String) -> (r: ConversionError) {
        ConversionError { message }
    }
}

impl FromSpecImpl<String> for ConversionError {
    open spec fn obeys_from_spec() -> bool {
        true
    }

    open spec fn from_spec(message: String) -> ConversionError {
        ConversionError { message }
    }
}

/// The pattern of `Str`: a text that starts with `1` or ends with `0`.
pub open spec fn str_pattern() -> Seq<char> {
    seq!['^', '1', '|', '0', '$']
}

/// A text of the data files that matches the pattern `^1|0$`.
#[derive(Debug, Eq, Hash, Ord, PartialEq, PartialOrd)]
pub struct Str(String);

impl Clone for Str {
    fn clone(&self) -> (r: Str)
        ensures
            r == *self,
    {
        proof {
            use_type_invariant(self);
        }
        Str(self.0.clone())
    }
}

impl View for Str {
    type V = Seq<char>;

    closed spec fn view(&self) -> Seq<char> {
        self.0@
    }
}

impl Str {
    /// Every value matches the pattern.
    #[verifier::type_invariant]
    spec fn matches_pattern(self) -> bool {
        accepts(str_pattern(), self.0@)
    }

    /// The outcome of the search for the pattern in `value`: the text where
    /// the search found a match, else the error that names the pattern.
    pub fn from_search(value: &str, found: Option<bool>) -> (r: Result<Str, ConversionError>)
        requires
            found == Some(accepts(str_pattern(), value@)),
        ensures
            found == Some(true) ==> (r matches Ok(s) && s@ == value@),
            found != Some(true) ==> (r matches Err(e) && e@ == "doesn't match pattern \"^1|0$\""@),
    {
        match found {
            Some(true) => {
                let text = String::from_str(value);
                assert(accepts(str_pattern(), text@));
                Ok(Str(text))
            },
            _ => Err(ConversionError::new("doesn't match pattern \"^1|0$\"")),
        }
    }

    /// Reads a text that has to match the pattern.
    pub fn parse(value: &str) -> (r: Result<Str, ConversionError>)
        ensures
            r is Ok <==> accepts(str_pattern(), value@),
            r matches Ok(s) ==> s@ == value@,
            r matches Err(e) ==> e@ == "doesn't match pattern \"^1|0$\""@,
    {
        proof {
            reveal_strlit("^1|0$");
            assert("^1|0$"@ =~= str_pattern());
        }
        Str::from_search(value, search_pattern("^1|0$", value))
    }

    /// The text, which matches the pattern.
    pub fn as_str(&self) -> (r: &str)
        ensures
            r@ == self@,
            accepts(str_pattern(), r@),
    {
        proof {
            use_type_invariant(self);
        }
        self.0.as_str()
    }

    /// The text, as a new `String`.
    pub fn to_string(&self) -> (r: String)
        ensures
            r@ == self@,
    {
        self.0.clone()
    }

    /// The text, given up as a `String`.
    pub fn into_string(self) -> (r: String)
        ensures
            r@ == self@,
    {
        self.0
    }
}

impl From<Str> for String {
    fn from(value: Str) -> (r: String) {
        value.0
    }
}

impl FromSpecImpl<Str> for String {
    open spec fn obeys_from_spec() -> bool {
        true
    }

    closed spec fn from_spec(value: Str) -> String {
        value.0
    }
}

impl std::ops::Deref for Str {
    type Target = String;

    fn deref(&self) -> (r: &String)
        ensures
            r@ == self@,
    {
        &self.0
    }
}

impl std::str::FromStr for Str {
    type Err = ConversionError;

    fn from_str(value: &str) -> (r: Result<Str, ConversionError>)
        ensures
            r is Ok <==> accepts(str_pattern(), value@),
            r matches Ok(s) ==> s@ == value@,
            r matches Err(e) ==> e@ == "doesn't match pattern \"^1|0$\""@,
    {
        Str::parse(value)
    }
}

/// The pattern of `IntStr`: an optionally negative run of digits.
pub open spec fn int_str_pattern() -> Seq<char> {
    seq!['^', '(', '-', ')', '?', '\\', 'd', '+', '$']
}

/// A text of the data files that matches the pattern `^(-)?\d+$`.
#[derive(Debug, Eq, Hash, Ord, PartialEq, PartialOrd)]
pub struct IntStr(String);

impl Clone for IntStr {
    fn clone(&self) -> (r: IntStr)
        ensures
            r == *self,
    {
        proof {
            use_type_invariant(self);
        }
        IntStr(self.0.clone())
    }
}

impl View for IntStr {
    type V = Seq<char>;

    closed spec fn view(&self) -> Seq<char> {
        self.0@
    }
}

impl IntStr {
    /// Every value matches the pattern.
    #[verifier::type_invariant]
    spec fn matches_pattern(self) -> bool {
        accepts(int_str_pattern(), self.0@)
    }

    /// The outcome of the search for the pattern in `value`: the text where
    /// the search found a match, else the error that names the pattern.
    pub fn from_search(value: &str, found: Option<bool>) -> (r: Result<IntStr, ConversionError>)
        requires
            found == Some(accepts(int_str_pattern(), value@)),
        ensures
            found == Some(true) ==> (r matches Ok(s) && s@ == value@),
            found != Some(true) ==> (r matches Err(e) && e@ == "doesn't match pattern \"^(-)?\\d+$\""@),
    {
        match found {
            Some(true) => {
                let text = String::from_str(value);
                assert(accepts(int_str_pattern(), text@));
                Ok(IntStr(text))
            },
            _ => Err(ConversionError::new("doesn't match pattern \"^(-)?\\d+$\"")),
        }
    }

    /// Reads a text that has to match the pattern.
    pub fn parse(value: &str) -> (r: Result<IntStr, ConversionError>)
        ensures
            r is Ok <==> accepts(int_str_pattern(), value@),
            r matches Ok(s) ==> s@ == value@,
            r matches Err(e) ==> e@ == "doesn't match pattern \"^(-)?\\d+$\""@,
    {
        proof {
            reveal_strlit("^(-)?\\d+$");
            assert("^(-)?\\d+$"@ =~= int_str_pattern());
        }
        IntStr::from_search(value, search_pattern("^(-)?\\d+$", value))
    }

    /// The text, which matches the pattern.
    pub fn as_str(&self) -> (r: &str)
        ensures
            r@ == self@,
            accepts(int_str_pattern(), r@),
    {
        proof {
            use_type_invariant(self);
        }
        self.0.as_str()
    }

    /// The text, as a new `String`.
    pub fn to_string(&self) -> (r: String)
        ensures
            r@ == self@,
    {
        self.0.clone()
    }

    /// The text, given up as a `String`.
    pub fn into_string(self) -> (r: String)
        ensures
            r@ == self@,
    {
        self.0
    }
}

impl From<IntStr> for String {
    fn from(value: IntStr) -> (r: String) {
        value.0
    }
}

impl FromSpecImpl<IntStr> for String {
    open spec fn obeys_from_spec() -> bool {
        true
    }

    closed spec fn from_spec(value: IntStr) -> String {
        value.0
    }
}

impl std::ops::Deref for IntStr {
    type Target = String;

    fn deref(&self) -> (r: &String)
        ensures
            r@ == self@,
    {
        &self.0
    }
}

impl std::str::FromStr for IntStr {
    type Err = ConversionError;

    fn from_str(value: &str) -> (r: Result<IntStr, ConversionError>)
        ensures
            r is Ok <==> accepts(int_str_pattern(), value@),
            r matches Ok(s) ==> s@ == value@,
            r matches Err(e) ==> e@ == "doesn't match pattern \"^(-)?\\d+$\""@,
    {
        IntStr::parse(value)
    }
}

/// The pattern of `NumStr`: a run of digits with an optional fraction.
pub open spec fn num_str_pattern() -> Seq<char> {
    seq!['^', '\\', 'd', '+', '(', '\\', '.', '\\', 'd', '+', ')', '?', '$']
}

/// A text of the data files that matches the pattern `^\d+(\.\d+)?$`.
#[derive(Debug, Eq, Hash, Ord, PartialEq, PartialOrd)]
pub struct NumStr(String);

impl Clone for NumStr {
    fn clone(&self) -> (r: NumStr)
        ensures
            r == *self,
    {
        proof {
            use_type_invariant(self);
        }
        NumStr(self.0.clone())
    }
}

impl View for NumStr {
    type V = Seq<char>;

    closed spec fn view(&self) -> Seq<char> {
        self.0@
    }
}

impl NumStr {
    /// Every value matches the pattern.
    #[verifier::type_invariant]
    spec fn matches_pattern(self) -> bool {
        accepts(num_str_pattern(), self.0@)
    }

    /// The outcome of the search for the pattern in `value`: the text where
    /// the search found a match, else the error that names the pattern.
    pub fn from_search(value: &str, found: Option<bool>) -> (r: Result<NumStr, ConversionError>)
        requires
            found == Some(accepts(num_str_pattern(), value@)),
        ensures
            found == Some(true) ==> (r matches Ok(s) && s@ == value@),
            found != Some(true) ==> (r matches Err(e) && e@ == "doesn't match pattern \"^\\d+(\\.\\d+)?$\""@),
    {
        match found {
            Some(true) => {
                let text = String::from_str(value);
                assert(accepts(num_str_pattern(), text@));
                Ok(NumStr(text))
            },
            _ => Err(ConversionError::new("doesn't match pattern \"^\\d+(\\.\\d+)?$\"")),
        }
    }

    /// Reads a text that has to match the pattern.
    pub fn parse(value: &str) -> (r: Result<NumStr, ConversionError>)
        ensures
            r is Ok <==> accepts(num_str_pattern(), value@),
            r matches Ok(s) ==> s@ == value@,
            r matches Err(e) ==> e@ == "doesn't match pattern \"^\\d+(\\.\\d+)?$\""@,
    {
        proof {
            reveal_strlit("^\\d+(\\.\\d+)?$");
            assert("^\\d+(\\.\\d+)?$"@ =~= num_str_pattern());
        }
        NumStr::from_search(value, search_pattern("^\\d+(\\.\\d+)?$", value))
    }

    /// The text, which matches the pattern.
    pub fn as_str(&self) -> (r: &str)
        ensures
            r@ == self@,
            accepts(num_str_pattern(), r@),
    {
        proof {
            use_type_invariant(self);
        }
        self.0.as_str()
    }

    /// The text, as a new `String`.
    pub fn to_string(&self) -> (r: String)
        ensures
            r@ == self@,
    {
        self.0.clone()
    }

    /// The text, given up as a `String`.
    pub fn into_string(self) -> (r: String)
        ensures
            r@ == self@,
    {
        self.0
    }
}

impl From<NumStr> for String {
    fn from(value: NumStr) -> (r: String) {
        value.0
    }
}

impl FromSpecImpl<NumStr> for String {
    open spec fn obeys_from_spec() -> bool {
        true
    }

    closed spec fn from_spec(value: NumStr) -> String {
        value.0
    }
}

impl std::ops::Deref for NumStr {
    type Target = String;

    fn deref(&self) -> (r: &String)
        ensures
            r@ == self@,
    {
        &self.0
    }
}

impl std::str::FromStr for NumStr {
    type Err = ConversionError;

    fn from_str(value: &str) -> (r: Result<NumStr, ConversionError>)
        ensures
            r is Ok <==> accepts(num_str_pattern(), value@),
            r matches Ok(s) ==> s@ == value@,
            r matches Err(e) ==> e@ == "doesn't match pattern \"^\\d+(\\.\\d+)?$\""@,
    {
        NumStr::parse(value)
    }
}

/// The pattern of `FieldLifeValueType`: a text that holds an `n` or an `m`.
pub open spec fn life_type_pattern() -> Seq<char> {
    seq!['n', '|', 'm']
}

/// A text of the data files that matches the pattern `n|m`.
#[derive(Debug, Eq, Hash, Ord, PartialEq, PartialOrd)]
pub struct FieldLifeValueType(String);

impl Clone for FieldLifeValueType {
    fn clone(&self) -> (r: FieldLifeValueType)
        ensures
            r == *self,
    {
        proof {
            use_type_invariant(self);
        }
        FieldLifeValueType(self.0.clone())
    }
}

impl View for FieldLifeValueType {
    type V = Seq<char>;

    closed spec fn view(&self) -> Seq<char> {
        self.0@
    }
}

impl FieldLifeValueType {
    /// Every value matches the pattern.
    #[verifier::type_invariant]
    spec fn matches_pattern(self) -> bool {
        accepts(life_type_pattern(), self.0@)
    }

    /// The outcome of the search for the pattern in `value`: the text where
    /// the search found a match, else the error that names the pattern.
    pub fn from_search(value: &str, found: Option<bool>) -> (r: Result<FieldLifeValueType, ConversionError>)
        requires
            found == Some(accepts(life_type_pattern(), value@)),
        ensures
            found == Some(true) ==> (r matches Ok(s) && s@ == value@),
            found != Some(true) ==> (r matches Err(e) && e@ == "doesn't match pattern \"n|m\""@),
    {
        match found {
            Some(true) => {
                let text = String::from_str(value);
                assert(accepts(life_type_pattern(), text@));
                Ok(FieldLifeValueType(text))
            },
            _ => Err(ConversionError::new("doesn't match pattern \"n|m\"")),
        }
    }

    /// Reads a text that has to match the pattern.
    pub fn parse(value: &str) -> (r: Result<FieldLifeValueType, ConversionError>)
        ensures
            r is Ok <==> accepts(life_type_pattern(), value@),
            r matches Ok(s) ==> s@ == value@,
            r matches Err(e) ==> e@ == "doesn't match pattern \"n|m\""@,
    {
        proof {
            reveal_strlit("n|m");
            assert("n|m"@ =~= life_type_pattern());
        }
        FieldLifeValueType::from_search(value, search_pattern("n|m", value))
    }

    /// The text, which matches the pattern.
    pub fn as_str(&self) -> (r: &str)
        ensures
            r@ == self@,
            accepts(life_type_pattern(), r@),
    {
        proof {
            use_type_invariant(self);
        }
        self.0.as_str()
    }

    /// The text, as a new `String`.
    pub fn to_string(&self) -> (r: String)
        ensures
            r@ == self@,
    {
        self.0.clone()
    }

    /// The text, given up as a `String`.
    pub fn into_string(self) -> (r: String)
        ensures
            r@ == self@,
    {
        self.0
    }
}

impl From<FieldLifeValueType> for String {
    fn from(value: FieldLifeValueType) -> (r: String) {
        value.0
    }
}

impl FromSpecImpl<FieldLifeValueType> for String {
    open spec fn obeys_from_spec() -> bool {
        true
    }

    closed spec fn from_spec(value: FieldLifeValueType) -> String {
        value.0
    }
}

impl std::ops::Deref for FieldLifeValueType {
    type Target = String;

    fn deref(&self) -> (r: &String)
        ensures
            r@ == self@,
    {
        &self.0
    }
}

impl std::str::FromStr for FieldLifeValueType {
    type Err = ConversionError;

    fn from_str(value: &str) -> (r: Result<FieldLifeValueType, ConversionError>)
        ensures
            r is Ok <==> accepts(life_type_pattern(), value@),
            r matches Ok(s) ==> s@ == value@,
            r matches Err(e) ==> e@ == "doesn't match pattern \"n|m\""@,
    {
        FieldLifeValueType::parse(value)
    }
}

} // verus!
