//! The annotation argument model and its validator.
//!
//! An annotation argument list is a sequence of `name = value` expressions.
//! Each expression is checked for shape (an assignment of a string literal,
//! a boolean literal or an array of string literals to an identifier), then
//! against a recognized-argument table that fixes the expected value type of
//! every key.  Also holds the string utilities shared by the capability
//! selector and the path generator.

use vstd::prelude::*;

verus! {

/// A typed annotation value.  With payload `None` it serves as the
/// expected-type placeholder in a recognized-argument table; with payload
/// `Some` it is a parsed value.
#[derive(Debug, Clone, PartialEq, Eq)]
pub enum ArgValueType {
    Str(Option<String>),
    Bool(Option<bool>),
    StrList(Option<Vec<String>>),
}

/// The type tag of an `ArgValueType`, used to compare a parsed value
/// against a placeholder.
#[derive(Debug, Clone, Copy, PartialEq, Eq, Structural)]
pub enum ArgTag {
    Str,
    Bool,
    StrList,
}

/// The left-hand side of an annotation assignment: either a plain
/// identifier or some other, rejected expression shape.
#[derive(Debug, PartialEq, Eq)]
pub enum AnnKey {
    Ident(String),
    Other,
}

/// The right-hand side of an annotation assignment.
#[derive(Debug, PartialEq, Eq)]
pub enum AnnValue {
    /// A string literal.
    StrLit(String),
    /// A boolean literal.
    BoolLit(bool),
    /// A literal of some other kind (numeric, character, ...).
    OtherLit,
    /// An array expression.
    Array(Vec<AnnValue>),
    /// Any other expression shape.
    Other,
}

/// One annotation expression, as written between the commas of an
/// argument list.
#[derive(Debug, PartialEq, Eq)]
pub enum AnnExpr {
    Assign(AnnKey, AnnValue),
    /// An expression that is not an assignment.
    Other,
}

/// A definition-time error of the argument grammar or schema.
#[derive(Debug, Clone, PartialEq, Eq)]
pub enum ParseError {
    /// The expression is not an assignment.
    NotAnExpression,
    /// The left side of the assignment is not an identifier.
    KeyNotAnIdentifier,
    /// The right side is neither a string literal, a boolean literal,
    /// nor an array of string literals.
    InvalidValue,
    /// The key is not in the recognized-argument table.
    UnknownArg(String),
    /// The value's type does not match the recognized type of the key.
    WrongType(String, ArgTag),
    /// The required `uuid` argument is missing.
    MissingUuid,
}

/// One entry of a recognized-argument table: a key and the placeholder
/// fixing the expected type of its value.
pub struct RecognizedArg {
    pub name: String,
    pub placeholder: ArgValueType,
}

/// The type tag of a value.
pub open spec fn spec_tag_of(v: ArgValueType) -> ArgTag {
    match v {
        ArgValueType::Str(_) => ArgTag::Str,
        ArgValueType::Bool(_) => ArgTag::Bool,
        ArgValueType::StrList(_) => ArgTag::StrList,
    }
}

/// The type tag of a value.
pub fn tag_of(v: &ArgValueType) -> (r: ArgTag)
    ensures
        r == spec_tag_of(*v),
{
    match v {
        ArgValueType::Str(_) => ArgTag::Str,
        ArgValueType::Bool(_) => ArgTag::Bool,
        ArgValueType::StrList(_) => ArgTag::StrList,
    }
}

/// A right-hand side parses when it is a string literal, a boolean
/// literal, or an array whose elements are all string literals.
pub open spec fn ann_value_parses(v: AnnValue) -> bool {
    match v {
        AnnValue::StrLit(_) => true,
        AnnValue::BoolLit(_) => true,
        AnnValue::Array(elems) => forall|i: int|
            0 <= i < elems@.len() ==> (#[trigger] elems@[i]) is StrLit,
        _ => false,
    }
}

/// The type tag a well-shaped right-hand side parses to.
pub open spec fn ann_value_tag(v: AnnValue) -> ArgTag {
    match v {
        AnnValue::StrLit(_) => ArgTag::Str,
        AnnValue::BoolLit(_) => ArgTag::Bool,
        _ => ArgTag::StrList,
    }
}

/// The parsed value `out` carries exactly the payload of the
/// well-shaped right-hand side `v`.
pub open spec fn value_matches(out: ArgValueType, v: AnnValue) -> bool {
    match v {
        AnnValue::StrLit(s) => out matches ArgValueType::Str(Some(s2)) && s2@ == s@,
        AnnValue::BoolLit(b) => out == ArgValueType::Bool(Some(b)),
        AnnValue::Array(elems) => out matches ArgValueType::StrList(Some(list))
            && list@.len() == elems@.len()
            && forall|i: int| 0 <= i < elems@.len()
                ==> (#[trigger] elems@[i]) is StrLit && list@[i]@ == elems@[i]->StrLit_0@,
        _ => false,
    }
}

/// The expression has the shape `identifier = well-shaped value`.
pub open spec fn expr_well_shaped(e: AnnExpr) -> bool {
    e matches AnnExpr::Assign(AnnKey::Ident(_), v) && ann_value_parses(v)
}

/// The first-match lookup of a key in a recognized-argument table.
pub open spec fn table_lookup(t: Seq<RecognizedArg>, k: Seq<char>) -> Option<ArgTag>
    decreases t.len(),
{
    if t.len() == 0 {
        None
    } else if t[0].name@ == k {
        Some(spec_tag_of(t[0].placeholder))
    } else {
        table_lookup(t.skip(1), k)
    }
}

/// The expression passes the whole per-expression validation: it is
/// well shaped, its key is recognized, and its value has the recognized
/// type.
pub open spec fn entry_ok(e: AnnExpr, t: Seq<RecognizedArg>) -> bool {
    match e {
        AnnExpr::Assign(AnnKey::Ident(k), v) => ann_value_parses(v)
            && table_lookup(t, k@) == Some(ann_value_tag(v)),
        _ => false,
    }
}

/// The error a failing expression is reported with, by the order the
/// checks run in: shape first, then key recognition, then type.
pub open spec fn err_matches_entry(err: ParseError, e: AnnExpr, t: Seq<RecognizedArg>) -> bool {
    match e {
        AnnExpr::Other => err == ParseError::NotAnExpression,
        AnnExpr::Assign(AnnKey::Other, _) => err == ParseError::KeyNotAnIdentifier,
        AnnExpr::Assign(AnnKey::Ident(k), v) => if !ann_value_parses(v) {
            err == ParseError::InvalidValue
        } else {
            match table_lookup(t, k@) {
                Option::None => err matches ParseError::UnknownArg(n) && n@ == k@,
                Option::Some(tag) => tag != ann_value_tag(v)
                    && (err matches ParseError::WrongType(n, tg) && n@ == k@ && tg == tag),
            }
        },
    }
}

/// Splits one annotation expression into its key and its typed value,
/// rejecting every shape but `identifier = string | bool | [strings]`.
#[verifier::loop_isolation(false)]
pub fn get_expression_name_and_val(expr: &AnnExpr) -> (r: Result<(String, ArgValueType), ParseError>)
    ensures
        r is Ok <==> expr_well_shaped(*expr),
        r matches Ok(p) ==> (*expr matches AnnExpr::Assign(AnnKey::Ident(k), v)
            && p.0@ == k@ && value_matches(p.1, v)),
        *expr is Other ==> r == Result::<(String, ArgValueType), ParseError>::Err(
            ParseError::NotAnExpression,
        ),
        (*expr matches AnnExpr::Assign(AnnKey::Other, _)) ==> r == Result::<
            (String, ArgValueType),
            ParseError,
        >::Err(ParseError::KeyNotAnIdentifier),
        (*expr matches AnnExpr::Assign(AnnKey::Ident(_), v) && !ann_value_parses(v)) ==> r
            == Result::<(String, ArgValueType), ParseError>::Err(ParseError::InvalidValue),
{
    match expr {
        AnnExpr::Other => Err(ParseError::NotAnExpression),
        AnnExpr::Assign(AnnKey::Other, _) => Err(ParseError::KeyNotAnIdentifier),
        AnnExpr::Assign(AnnKey::Ident(name), value) => {
            match value {
                AnnValue::StrLit(s) => Ok((name.clone(), ArgValueType::Str(Some(s.clone())))),
                AnnValue::BoolLit(b) => Ok((name.clone(), ArgValueType::Bool(Some(*b)))),
                AnnValue::Array(elems) => {
                    let mut strings: Vec<String> = Vec::new();
                    let mut i: usize = 0;
                    while i < elems.len()
                        invariant
                            i <= elems@.len(),
                            strings@.len() == i,
                            forall|j: int| 0 <= j < i
                                ==> (#[trigger] elems@[j]) is StrLit
                                    && strings@[j]@ == elems@[j]->StrLit_0@,
                        decreases elems@.len() - i,
                    {
                        match &elems[i] {
                            AnnValue::StrLit(s) => strings.push(s.clone()),
                            _ => {
                                proof {
                                    assert(!ann_value_parses(*value)) by {
                                        if ann_value_parses(*value) {
                                            assert(elems@[i as int] is StrLit);
                                        }
                                    }
                                }
                                return Err(ParseError::InvalidValue);
                            },
                        }
                        i = i + 1;
                    }
                    Ok((name.clone(), ArgValueType::StrList(Some(strings))))
                },
                _ => Err(ParseError::InvalidValue),
            }
        },
    }
}

/// Validates one annotation expression against a recognized-argument
/// table: the expression must be well shaped, its key recognized, and
/// its value of the recognized type.
#[verifier::loop_isolation(false)]
pub fn get_valid_arg(table: &Vec<RecognizedArg>, expr: &AnnExpr) -> (r: Result<
    (String, ArgValueType),
    ParseError,
>)
    ensures
        r is Ok <==> entry_ok(*expr, table@),
        r matches Ok(p) ==> (*expr matches AnnExpr::Assign(AnnKey::Ident(k), v)
            && p.0@ == k@ && value_matches(p.1, v)),
        r matches Err(err) ==> err_matches_entry(err, *expr, table@),
{
    let parsed = get_expression_name_and_val(expr);
    let (name, value) = match parsed {
        Ok(p) => p,
        Err(e) => {
            return Err(e);
        },
    };
    let mut i: usize = 0;
    while i < table.len()
        invariant
            i <= table@.len(),
            forall|j: int| 0 <= j < i ==> table@[j].name@ != name@,
        decreases table@.len() - i,
    {
        if str_eq(table[i].name.as_str(), name.as_str()) {
            proof {
                lemma_table_lookup_first(table@, name@, i as int);
            }
            let expected = tag_of(&table[i].placeholder);
            let actual = tag_of(&value);
            if expected == actual {
                return Ok((name, value));
            } else {
                return Err(ParseError::WrongType(name, expected));
            }
        }
        i = i + 1;
    }
    proof {
        lemma_table_lookup_absent(table@, name@);
    }
    Err(ParseError::UnknownArg(name))
}

/// First-match lookup finds the first entry whose key matches.
proof fn lemma_table_lookup_first(t: Seq<RecognizedArg>, k: Seq<char>, i: int)
    requires
        0 <= i < t.len(),
        t[i].name@ == k,
        forall|j: int| 0 <= j < i ==> t[j].name@ != k,
    ensures
        table_lookup(t, k) == Some(spec_tag_of(t[i].placeholder)),
    decreases i,
{
    if i > 0 {
        lemma_table_lookup_first(t.skip(1), k, i - 1);
    }
}

/// Lookup of a key no entry carries yields nothing.
proof fn lemma_table_lookup_absent(t: Seq<RecognizedArg>, k: Seq<char>)
    requires
        forall|j: int| 0 <= j < t.len() ==> t[j].name@ != k,
    ensures
        table_lookup(t, k) is None,
    decreases t.len(),
{
    if t.len() > 0 {
        lemma_table_lookup_absent(t.skip(1), k);
    }
}

/// The display name of an expected argument type.
pub open spec fn tag_name(t: ArgTag) -> Seq<char> {
    match t {
        ArgTag::Str => "String"@,
        ArgTag::Bool => "bool"@,
        ArgTag::StrList => "Vec<String>"@,
    }
}

/// The human-readable description of a definition-time error.
pub open spec fn message_view(e: ParseError) -> Seq<char> {
    match e {
        ParseError::NotAnExpression => "Arguments must be expressions (ex: primary = false)"@,
        ParseError::KeyNotAnIdentifier => "Args must be comma separated"@,
        ParseError::InvalidValue => "Right side of expression must be string literal or boolean value"@,
        ParseError::UnknownArg(n) => "Unknown arg "@ + n@,
        ParseError::WrongType(n, t) => "Arg "@ + n@ + " must be of type "@ + tag_name(t),
        ParseError::MissingUuid => "uuid must be defined"@,
    }
}

impl ParseError {
    /// Renders the error as its human-readable message.
    pub fn message(&self) -> (r: String)
        ensures
            r@ == message_view(*self),
    {
        match self {
            ParseError::NotAnExpression => "Arguments must be expressions (ex: primary = false)".to_owned(),
            ParseError::KeyNotAnIdentifier => "Args must be comma separated".to_owned(),
            ParseError::InvalidValue => "Right side of expression must be string literal or boolean value".to_owned(),
            ParseError::UnknownArg(n) => {
                let mut r = "Unknown arg ".to_owned();
                r.append(n.as_str());
                r
            },
            ParseError::WrongType(n, t) => {
                let mut r = "Arg ".to_owned();
                r.append(n.as_str());
                r.append(" must be of type ");
                match t {
                    ArgTag::Str => r.append("String"),
                    ArgTag::Bool => r.append("bool"),
                    ArgTag::StrList => r.append("Vec<String>"),
                }
                r
            },
            ParseError::MissingUuid => "uuid must be defined".to_owned(),
        }
    }
}

/// The value side of an assignment expression.
pub open spec fn expr_value(e: AnnExpr) -> AnnValue {
    match e {
        AnnExpr::Assign(_, v) => v,
        AnnExpr::Other => AnnValue::Other,
    }
}

/// The views of a sequence of strings.
pub open spec fn str_views(l: Seq<String>) -> Seq<Seq<char>> {
    l.map_values(|s: String| s@)
}

/// The views of the string literals of an array value's elements.
pub open spec fn strlit_views(elems: Seq<AnnValue>) -> Seq<Seq<char>> {
    elems.map_values(
        |a: AnnValue|
            match a {
                AnnValue::StrLit(s) => s@,
                _ => Seq::<char>::empty(),
            },
    )
}

/// The string value the last `k = "..."` expression of the list
/// assigns, if any: on duplicate keys, the last occurrence wins.
pub open spec fn last_str_arg(es: Seq<AnnExpr>, k: Seq<char>) -> Option<Seq<char>>
    decreases es.len(),
{
    if es.len() == 0 {
        None
    } else {
        match es.last() {
            AnnExpr::Assign(AnnKey::Ident(n), AnnValue::StrLit(s)) => if n@ == k {
                Some(s@)
            } else {
                last_str_arg(es.drop_last(), k)
            },
            _ => last_str_arg(es.drop_last(), k),
        }
    }
}

/// The boolean value the last `k = true | false` expression of the
/// list assigns, if any.
pub open spec fn last_bool_arg(es: Seq<AnnExpr>, k: Seq<char>) -> Option<bool>
    decreases es.len(),
{
    if es.len() == 0 {
        None
    } else {
        match es.last() {
            AnnExpr::Assign(AnnKey::Ident(n), AnnValue::BoolLit(b)) => if n@ == k {
                Some(b)
            } else {
                last_bool_arg(es.drop_last(), k)
            },
            _ => last_bool_arg(es.drop_last(), k),
        }
    }
}

/// The string-list value the last `k = [...]` expression of the list
/// assigns, if any.
pub open spec fn last_list_arg(es: Seq<AnnExpr>, k: Seq<char>) -> Option<Seq<Seq<char>>>
    decreases es.len(),
{
    if es.len() == 0 {
        None
    } else {
        match es.last() {
            AnnExpr::Assign(AnnKey::Ident(n), AnnValue::Array(elems)) => if n@ == k {
                Some(strlit_views(elems@))
            } else {
                last_list_arg(es.drop_last(), k)
            },
            _ => last_list_arg(es.drop_last(), k),
        }
    }
}

/// Extending the prefix by one expression either overwrites the key's
/// string value or leaves it as it was.
pub proof fn lemma_last_str_arg_step(es: Seq<AnnExpr>, i: int, k: Seq<char>)
    requires
        0 <= i < es.len(),
    ensures
        (es[i] matches AnnExpr::Assign(AnnKey::Ident(n), AnnValue::StrLit(s)) && n@ == k)
            ==> last_str_arg(es.take(i + 1), k) == Some(es[i]->Assign_1->StrLit_0@),
        !(es[i] matches AnnExpr::Assign(AnnKey::Ident(n), AnnValue::StrLit(s)) && n@ == k)
            ==> last_str_arg(es.take(i + 1), k) == last_str_arg(es.take(i), k),
{
    assert(es.take(i + 1).drop_last() =~= es.take(i));
    assert(es.take(i + 1).last() == es[i]);
}

/// Extending the prefix by one expression either overwrites the key's
/// boolean value or leaves it as it was.
pub proof fn lemma_last_bool_arg_step(es: Seq<AnnExpr>, i: int, k: Seq<char>)
    requires
        0 <= i < es.len(),
    ensures
        (es[i] matches AnnExpr::Assign(AnnKey::Ident(n), AnnValue::BoolLit(b)) && n@ == k)
            ==> last_bool_arg(es.take(i + 1), k) == Some(es[i]->Assign_1->BoolLit_0),
        !(es[i] matches AnnExpr::Assign(AnnKey::Ident(n), AnnValue::BoolLit(b)) && n@ == k)
            ==> last_bool_arg(es.take(i + 1), k) == last_bool_arg(es.take(i), k),
{
    assert(es.take(i + 1).drop_last() =~= es.take(i));
    assert(es.take(i + 1).last() == es[i]);
}

/// Extending the prefix by one expression either overwrites the key's
/// string-list value or leaves it as it was.
pub proof fn lemma_last_list_arg_step(es: Seq<AnnExpr>, i: int, k: Seq<char>)
    requires
        0 <= i < es.len(),
    ensures
        (es[i] matches AnnExpr::Assign(AnnKey::Ident(n), AnnValue::Array(elems)) && n@ == k)
            ==> last_list_arg(es.take(i + 1), k) == Some(strlit_views(es[i]->Assign_1->Array_0@)),
        !(es[i] matches AnnExpr::Assign(AnnKey::Ident(n), AnnValue::Array(elems)) && n@ == k)
            ==> last_list_arg(es.take(i + 1), k) == last_list_arg(es.take(i), k),
{
    assert(es.take(i + 1).drop_last() =~= es.take(i));
    assert(es.take(i + 1).last() == es[i]);
}

/// `sub` occurs in `s` starting at position `i`.
pub open spec fn substr_at(s: Seq<char>, sub: Seq<char>, i: int) -> bool {
    0 <= i && i + sub.len() <= s.len() && s.subrange(i, i + sub.len()) == sub
}

/// `sub` occurs somewhere in `s`.
pub open spec fn has_substr(s: Seq<char>, sub: Seq<char>) -> bool {
    exists|i: int| substr_at(s, sub, i)
}

/// Character-for-character equality of two string slices.
pub fn str_eq(a: &str, b: &str) -> (r: bool)
    ensures
        r == (a@ == b@),
{
    let an: usize = a.unicode_len();
    let bn: usize = b.unicode_len();
    if an != bn {
        return false;
    }
    let mut i: usize = 0;
    while i < an
        invariant
            an == a@.len(),
            bn == b@.len(),
            an == bn,
            i <= an,
            forall|j: int| 0 <= j < i ==> a@[j] == b@[j],
        decreases an - i,
    {
        if a.get_char(i) != b.get_char(i) {
            proof {
                if a@ == b@ {
                    assert(a@[i as int] == b@[i as int]);
                }
            }
            return false;
        }
        i = i + 1;
    }
    proof {
        assert(a@ =~= b@);
    }
    true
}

/// Substring search: whether `sub` occurs anywhere in `s`.
pub fn contains_sub(s: &str, sub: &str) -> (r: bool)
    ensures
        r == has_substr(s@, sub@),
{
    let n: usize = s.unicode_len();
    let m: usize = sub.unicode_len();
    if m > n {
        proof {
            assert(forall|i: int| substr_at(s@, sub@, i) ==> i + sub@.len() <= s@.len());
        }
        return false;
    }
    let mut i: usize = 0;
    while i <= n - m
        invariant
            n == s@.len(),
            m == sub@.len(),
            m <= n,
            i <= n - m + 1,
            forall|j: int| 0 <= j < i ==> !substr_at(s@, sub@, j),
        decreases n + 1 - i,
    {
        let mut k: usize = 0;
        while k < m && s.get_char(i + k) == sub.get_char(k)
            invariant
                n == s@.len(),
                m == sub@.len(),
                i + m <= n,
                k <= m,
                forall|t: int| 0 <= t < k ==> s@[i + t] == sub@[t],
            decreases m - k,
        {
            k = k + 1;
        }
        if k == m {
            proof {
                assert(s@.subrange(i as int, i + m) =~= sub@);
                assert(substr_at(s@, sub@, i as int));
            }
            return true;
        }
        proof {
            assert(s@[i + k] != sub@[k as int]);
            if substr_at(s@, sub@, i as int) {
                assert(s@.subrange(i as int, i + m)[k as int] == sub@[k as int]);
            }
        }
        i = i + 1;
    }
    proof {
        assert forall|j: int| !substr_at(s@, sub@, j) by {
            if 0 <= j && j + sub@.len() <= s@.len() {
                assert(j < i);
            }
        }
    }
    false
}

} // verus!
