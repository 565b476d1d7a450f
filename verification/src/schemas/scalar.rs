use vstd::prelude::*;
use vstd::std_specs::convert::FromSpecImpl;
use vstd::string::*;

use crate::schemas::pattern::{
    accepts, int_str_pattern, num_str_pattern, str_pattern, ConversionError, IntStr, NumStr, Str,
};
use crate::schemas::text::{format_i64, i64_text, parse_i64, parse_i64_spec};

verus! {

/// Whether a text is read neither by the pattern of the first variant nor
/// as a signed 64-bit number, so that no variant takes it.
pub open spec fn fits_no_variant(pattern: Seq<char>, text: Seq<char>) -> bool {
    !accepts(pattern, text) && parse_i64_spec(text) is None
}

/// A flag of the data files, written as a text (`"1"` or `"0"`) or as a number.
#[derive(Clone, Debug)]
pub enum Bool {
    Str(Str),
    Int(i64),
}

impl Bool {
    /// The text form of the value: the text itself, or the decimal number.
    pub open spec fn text(&self) -> Seq<char> {
        match self {
            Bool::Str(s) => s@,
            Bool::Int(v) => i64_text(*v),
        }
    }

    /// Reads a text: as `Str` where it matches that pattern, else as a
    /// signed 64-bit number, else it fails.
    pub fn parse(value: &str) -> (r: Result<Bool, ConversionError>)
        ensures
            accepts(str_pattern(), value@) ==> (r matches Ok(Bool::Str(s)) && s@ == value@),
            !accepts(str_pattern(), value@) && parse_i64_spec(value@) is Some ==> r == Ok::<Bool, ConversionError>(
                Bool::Int(parse_i64_spec(value@).unwrap()),
            ),
            fits_no_variant(str_pattern(), value@) ==> (r matches Err(e) && e@
                == "string conversion failed for all variants"@),
    {
        match Str::parse(value) {
            Ok(s) => Ok(Bool::Str(s)),
            Err(_) => match parse_i64(value) {
                Some(v) => Ok(Bool::Int(v)),
                None => Err(ConversionError::new("string conversion failed for all variants")),
            },
        }
    }

    /// The text form of the value.
    pub fn to_string(&self) -> (r: String)
        ensures
            r@ == self.text(),
    {
        match self {
            Bool::Str(s) => s.to_string(),
            Bool::Int(v) => format_i64(*v),
        }
    }
}

impl std::str::FromStr for Bool {
    type Err = ConversionError;

    fn from_str(value: &str) -> (r: Result<Bool, ConversionError>)
        ensures
            accepts(str_pattern(), value@) ==> (r matches Ok(Bool::Str(s)) && s@ == value@),
            !accepts(str_pattern(), value@) && parse_i64_spec(value@) is Some ==> r == Ok::<Bool, ConversionError>(
                Bool::Int(parse_i64_spec(value@).unwrap()),
            ),
            fits_no_variant(str_pattern(), value@) ==> (r matches Err(e) && e@
                == "string conversion failed for all variants"@),
    {
        Bool::parse(value)
    }
}

impl From<Str> for Bool {
    fn from(value: Str) -> (r: Bool) {
        Bool::Str(value)
    }
}

impl FromSpecImpl<Str> for Bool {
    open spec fn obeys_from_spec() -> bool {
        true
    }

    open spec fn from_spec(value: Str) -> Bool {
        Bool::Str(value)
    }
}

impl From<i64> for Bool {
    fn from(value: i64) -> (r: Bool) {
        Bool::Int(value)
    }
}

impl FromSpecImpl<i64> for Bool {
    open spec fn obeys_from_spec() -> bool {
        true
    }

    open spec fn from_spec(value: i64) -> Bool {
        Bool::Int(value)
    }
}

/// A whole number of the data files, written as a text or as a number.
#[derive(Clone, Debug)]
pub enum StrOrInt {
    Variant0(IntStr),
    Variant1(i64),
}

impl StrOrInt {
    /// The text form of the value: the text itself, or the decimal number.
    pub open spec fn text(&self) -> Seq<char> {
        match self {
            StrOrInt::Variant0(s) => s@,
            StrOrInt::Variant1(v) => i64_text(*v),
        }
    }

    /// Reads a text: as `IntStr` where it matches that pattern, else as a
    /// signed 64-bit number, else it fails.
    pub fn parse(value: &str) -> (r: Result<StrOrInt, ConversionError>)
        ensures
            accepts(int_str_pattern(), value@) ==> (r matches Ok(StrOrInt::Variant0(s)) && s@ == value@),
            !accepts(int_str_pattern(), value@) && parse_i64_spec(value@) is Some ==> r == Ok::<StrOrInt, ConversionError>(
                StrOrInt::Variant1(parse_i64_spec(value@).unwrap()),
            ),
            fits_no_variant(int_str_pattern(), value@) ==> (r matches Err(e) && e@
                == "string conversion failed for all variants"@),
    {
        match IntStr::parse(value) {
            Ok(s) => Ok(StrOrInt::Variant0(s)),
            Err(_) => match parse_i64(value) {
                Some(v) => Ok(StrOrInt::Variant1(v)),
                None => Err(ConversionError::new("string conversion failed for all variants")),
            },
        }
    }

    /// The text form of the value.
    pub fn to_string(&self) -> (r: String)
        ensures
            r@ == self.text(),
    {
        match self {
            StrOrInt::Variant0(s) => s.to_string(),
            StrOrInt::Variant1(v) => format_i64(*v),
        }
    }
}

impl std::str::FromStr for StrOrInt {
    type Err = ConversionError;

    fn from_str(value: &str) -> (r: Result<StrOrInt, ConversionError>)
        ensures
            accepts(int_str_pattern(), value@) ==> (r matches Ok(StrOrInt::Variant0(s)) && s@ == value@),
            !accepts(int_str_pattern(), value@) && parse_i64_spec(value@) is Some ==> r == Ok::<StrOrInt, ConversionError>(
                StrOrInt::Variant1(parse_i64_spec(value@).unwrap()),
            ),
            fits_no_variant(int_str_pattern(), value@) ==> (r matches Err(e) && e@
                == "string conversion failed for all variants"@),
    {
        StrOrInt::parse(value)
    }
}

impl From<IntStr> for StrOrInt {
    fn from(value: IntStr) -> (r: StrOrInt) {
        StrOrInt::Variant0(value)
    }
}

impl FromSpecImpl<IntStr> for StrOrInt {
    open spec fn obeys_from_spec() -> bool {
        true
    }

    open spec fn from_spec(value: IntStr) -> StrOrInt {
        StrOrInt::Variant0(value)
    }
}

impl From<i64> for StrOrInt {
    fn from(value: i64) -> (r: StrOrInt) {
        StrOrInt::Variant1(value)
    }
}

impl FromSpecImpl<i64> for StrOrInt {
    open spec fn obeys_from_spec() -> bool {
        true
    }

    open spec fn from_spec(value: i64) -> StrOrInt {
        StrOrInt::Variant1(value)
    }
}

/// A number of the data files, written as a text (maybe with a fraction) or as a whole number.
#[derive(Clone, Debug)]
pub enum StrOrNum {
    NumStr(NumStr),
    Int(i64),
}

impl StrOrNum {
    /// The text form of the value: the text itself, or the decimal number.
    pub open spec fn text(&self) -> Seq<char> {
        match self {
            StrOrNum::NumStr(s) => s@,
            StrOrNum::Int(v) => i64_text(*v),
        }
    }

    /// Reads a text: as `NumStr` where it matches that pattern, else as a
    /// signed 64-bit number, else it fails.
    pub fn parse(value: &str) -> (r: Result<StrOrNum, ConversionError>)
        ensures
            accepts(num_str_pattern(), value@) ==> (r matches Ok(StrOrNum::NumStr(s)) && s@ == value@),
            !accepts(num_str_pattern(), value@) && parse_i64_spec(value@) is Some ==> r == Ok::<StrOrNum, ConversionError>(
                StrOrNum::Int(parse_i64_spec(value@).unwrap()),
            ),
            fits_no_variant(num_str_pattern(), value@) ==> (r matches Err(e) && e@
                == "string conversion failed for all variants"@),
    {
        match NumStr::parse(value) {
            Ok(s) => Ok(StrOrNum::NumStr(s)),
            Err(_) => match parse_i64(value) {
                Some(v) => Ok(StrOrNum::Int(v)),
                None => Err(ConversionError::new("string conversion failed for all variants")),
            },
        }
    }

    /// The text form of the value.
    pub fn to_string(&self) -> (r: String)
        ensures
            r@ == self.text(),
    {
        match self {
            StrOrNum::NumStr(s) => s.to_string(),
            StrOrNum::Int(v) => format_i64(*v),
        }
    }
}

impl std::str::FromStr for StrOrNum {
    type Err = ConversionError;

    fn from_str(value: &str) -> (r: Result<StrOrNum, ConversionError>)
        ensures
            accepts(num_str_pattern(), value@) ==> (r matches Ok(StrOrNum::NumStr(s)) && s@ == value@),
            !accepts(num_str_pattern(), value@) && parse_i64_spec(value@) is Some ==> r == Ok::<StrOrNum, ConversionError>(
                StrOrNum::Int(parse_i64_spec(value@).unwrap()),
            ),
            fits_no_variant(num_str_pattern(), value@) ==> (r matches Err(e) && e@
                == "string conversion failed for all variants"@),
    {
        StrOrNum::parse(value)
    }
}

impl From<NumStr> for StrOrNum {
    fn from(value: NumStr) -> (r: StrOrNum) {
        StrOrNum::NumStr(value)
    }
}

impl FromSpecImpl<NumStr> for StrOrNum {
    open spec fn obeys_from_spec() -> bool {
        true
    }

    open spec fn from_spec(value: NumStr) -> StrOrNum {
        StrOrNum::NumStr(value)
    }
}

impl From<i64> for StrOrNum {
    fn from(value: i64) -> (r: StrOrNum) {
        StrOrNum::Int(value)
    }
}

impl FromSpecImpl<i64> for StrOrNum {
    open spec fn obeys_from_spec() -> bool {
        true
    }

    open spec fn from_spec(value: i64) -> StrOrNum {
        StrOrNum::Int(value)
    }
}

/// The mode of a field: a name or a number.
#[derive(Clone, Debug)]
pub enum FieldInfoMode {
    Variant0(String),
    Variant1(i64),
}

impl FieldInfoMode {
    /// The text form of the value: the text itself, or the decimal number.
    pub open spec fn text(&self) -> Seq<char> {
        match self {
            FieldInfoMode::Variant0(s) => s@,
            FieldInfoMode::Variant1(v) => i64_text(*v),
        }
    }

    /// Reads a text; every text is taken as it is by the text variant.
    pub fn parse(value: &str) -> (r: Result<FieldInfoMode, ConversionError>)
        ensures
            r matches Ok(FieldInfoMode::Variant0(s)) && s@ == value@,
    {
        Ok(FieldInfoMode::Variant0(String::from_str(value)))
    }

    /// The text form of the value.
    pub fn to_string(&self) -> (r: String)
        ensures
            r@ == self.text(),
    {
        match self {
            FieldInfoMode::Variant0(s) => s.clone(),
            FieldInfoMode::Variant1(v) => format_i64(*v),
        }
    }
}

impl std::str::FromStr for FieldInfoMode {
    type Err = ConversionError;

    fn from_str(value: &str) -> (r: Result<FieldInfoMode, ConversionError>)
        ensures
            r matches Ok(FieldInfoMode::Variant0(s)) && s@ == value@,
    {
        FieldInfoMode::parse(value)
    }
}

impl From<i64> for FieldInfoMode {
    fn from(value: i64) -> (r: FieldInfoMode) {
        FieldInfoMode::Variant1(value)
    }
}

impl FromSpecImpl<i64> for FieldInfoMode {
    open spec fn obeys_from_spec() -> bool {
        true
    }

    open spec fn from_spec(value: i64) -> FieldInfoMode {
        FieldInfoMode::Variant1(value)
    }
}

/// The type of a mob: a name or a number.
#[derive(Clone, Debug)]
pub enum MobInfoMobType {
    Variant0(String),
    Variant1(i64),
}

impl MobInfoMobType {
    /// The text form of the value: the text itself, or the decimal number.
    pub open spec fn text(&self) -> Seq<char> {
        match self {
            MobInfoMobType::Variant0(s) => s@,
            MobInfoMobType::Variant1(v) => i64_text(*v),
        }
    }

    /// Reads a text; every text is taken as it is by the text variant.
    pub fn parse(value: &str) -> (r: Result<MobInfoMobType, ConversionError>)
        ensures
            r matches Ok(MobInfoMobType::Variant0(s)) && s@ == value@,
    {
        Ok(MobInfoMobType::Variant0(String::from_str(value)))
    }

    /// The text form of the value.
    pub fn to_string(&self) -> (r: String)
        ensures
            r@ == self.text(),
    {
        match self {
            MobInfoMobType::Variant0(s) => s.clone(),
            MobInfoMobType::Variant1(v) => format_i64(*v),
        }
    }
}

impl std::str::FromStr for MobInfoMobType {
    type Err = ConversionError;

    fn from_str(value: &str) -> (r: Result<MobInfoMobType, ConversionError>)
        ensures
            r matches Ok(MobInfoMobType::Variant0(s)) && s@ == value@,
    {
        MobInfoMobType::parse(value)
    }
}

impl From<i64> for MobInfoMobType {
    fn from(value: i64) -> (r: MobInfoMobType) {
        MobInfoMobType::Variant1(value)
    }
}

impl FromSpecImpl<i64> for MobInfoMobType {
    open spec fn obeys_from_spec() -> bool {
        true
    }

    open spec fn from_spec(value: i64) -> MobInfoMobType {
        MobInfoMobType::Variant1(value)
    }
}

/// A skill value: a formula over the skill level, or a number.
#[derive(Clone, Debug)]
pub enum SkillExpr {
    Expr(String),
    Int(i64),
}

impl SkillExpr {
    /// The text form of the value: the text itself, or the decimal number.
    pub open spec fn text(&self) -> Seq<char> {
        match self {
            SkillExpr::Expr(s) => s@,
            SkillExpr::Int(v) => i64_text(*v),
        }
    }

    /// Reads a text; every text is taken as it is by the text variant.
    pub fn parse(value: &str) -> (r: Result<SkillExpr, ConversionError>)
        ensures
            r matches Ok(SkillExpr::Expr(s)) && s@ == value@,
    {
        Ok(SkillExpr::Expr(String::from_str(value)))
    }

    /// The text form of the value.
    pub fn to_string(&self) -> (r: String)
        ensures
            r@ == self.text(),
    {
        match self {
            SkillExpr::Expr(s) => s.clone(),
            SkillExpr::Int(v) => format_i64(*v),
        }
    }
}

impl std::str::FromStr for SkillExpr {
    type Err = ConversionError;

    fn from_str(value: &str) -> (r: Result<SkillExpr, ConversionError>)
        ensures
            r matches Ok(SkillExpr::Expr(s)) && s@ == value@,
    {
        SkillExpr::parse(value)
    }
}

impl From<i64> for SkillExpr {
    fn from(value: i64) -> (r: SkillExpr) {
        SkillExpr::Int(value)
    }
}

impl FromSpecImpl<i64> for SkillExpr {
    open spec fn obeys_from_spec() -> bool {
        true
    }

    open spec fn from_spec(value: i64) -> SkillExpr {
        SkillExpr::Int(value)
    }
}

} // verus!
