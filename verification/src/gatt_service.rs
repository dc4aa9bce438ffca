//! The service schema: `uuid` (required string), `path` (optional
//! string) and `primary` (optional bool, default true).

use vstd::prelude::*;

use crate::util::AnnExpr;
use crate::util::AnnKey;
use crate::util::ArgTag;
use crate::util::ArgValueType;
use crate::util::ParseError;
use crate::util::RecognizedArg;
use crate::util::ann_value_parses;
use crate::util::ann_value_tag;
use crate::util::get_valid_arg;
use crate::util::last_bool_arg;
use crate::util::last_str_arg;
use crate::util::lemma_last_bool_arg_step;
use crate::util::lemma_last_str_arg_step;
use crate::util::str_eq;
use crate::util::table_lookup;

verus! {

/// The validated arguments of a service annotation.
#[derive(Debug, PartialEq, Eq)]
pub struct GattServiceArgs {
    /// The service UUID, required.
    pub uuid: String,
    /// An explicit object-path override.
    pub path: Option<String>,
    /// Whether the service is primary; absent means primary.
    pub primary: Option<bool>,
}

/// The recognized-argument table of a service annotation.
pub open spec fn service_lookup(k: Seq<char>) -> Option<ArgTag> {
    if k == "uuid"@ {
        Some(ArgTag::Str)
    } else if k == "primary"@ {
        Some(ArgTag::Bool)
    } else if k == "path"@ {
        Some(ArgTag::Str)
    } else {
        None
    }
}

/// The expression is acceptable to the service schema: well shaped,
/// its key recognized, its value of the recognized type.
pub open spec fn service_entry_ok(e: AnnExpr) -> bool {
    match e {
        AnnExpr::Assign(AnnKey::Ident(k), v) => ann_value_parses(v) && service_lookup(k@)
            == Some(ann_value_tag(v)),
        _ => false,
    }
}

/// The error a failing expression is reported with under the service
/// schema: shape first, then key recognition, then type.
pub open spec fn service_err_matches(err: ParseError, e: AnnExpr) -> bool {
    match e {
        AnnExpr::Other => err == ParseError::NotAnExpression,
        AnnExpr::Assign(AnnKey::Other, _) => err == ParseError::KeyNotAnIdentifier,
        AnnExpr::Assign(AnnKey::Ident(k), v) => if !ann_value_parses(v) {
            err == ParseError::InvalidValue
        } else {
            match service_lookup(k@) {
                Option::None => err matches ParseError::UnknownArg(n) && n@ == k@,
                Option::Some(tag) => tag != ann_value_tag(v)
                    && (err matches ParseError::WrongType(n, tg) && n@ == k@ && tg == tag),
            }
        },
    }
}

/// The whole argument list parses under the service schema and
/// supplies the required `uuid`.
pub open spec fn service_args_ok(es: Seq<AnnExpr>) -> bool {
    (forall|i: int| 0 <= i < es.len() ==> service_entry_ok(#[trigger] es[i])) && last_str_arg(
        es,
        "uuid"@,
    ) is Some
}

impl GattServiceArgs {
    /// Parses and validates a service annotation argument list.
    ///
    /// Each expression must be a recognized, correctly typed
    /// assignment; on duplicate keys the last occurrence wins; the
    /// `uuid` argument is required.  The first failing expression
    /// decides the error.
    #[verifier::loop_isolation(false)]
    pub fn parse(exprs: &Vec<AnnExpr>) -> (r: Result<GattServiceArgs, ParseError>)
        ensures
            r is Ok <==> service_args_ok(exprs@),
            r matches Ok(a) ==> Some(a.uuid@) == last_str_arg(exprs@, "uuid"@),
            r matches Ok(a) ==> (match a.path {
                Some(p) => last_str_arg(exprs@, "path"@) == Some(p@),
                None => last_str_arg(exprs@, "path"@) is None,
            }),
            r matches Ok(a) ==> a.primary == last_bool_arg(exprs@, "primary"@),
            r matches Err(err) ==> ({
                ||| exists|i: int|
                    0 <= i < exprs@.len() && !service_entry_ok(#[trigger] exprs@[i]) && (forall|
                        j: int,
                    | 0 <= j < i ==> service_entry_ok(#[trigger] exprs@[j])) && service_err_matches(
                        err,
                        exprs@[i],
                    )
                ||| (forall|i: int| 0 <= i < exprs@.len() ==> service_entry_ok(#[trigger] exprs@[i]))
                    && last_str_arg(exprs@, "uuid"@) is None && err == ParseError::MissingUuid
            }),
    {
        let mut table: Vec<RecognizedArg> = Vec::new();
        table.push(RecognizedArg { name: "uuid".to_owned(), placeholder: ArgValueType::Str(None) });
        table.push(
            RecognizedArg { name: "primary".to_owned(), placeholder: ArgValueType::Bool(None) },
        );
        table.push(RecognizedArg { name: "path".to_owned(), placeholder: ArgValueType::Str(None) });
        proof {
            assert forall|k: Seq<char>| table_lookup(table@, k) == service_lookup(k) by {
                reveal_with_fuel(table_lookup, 5);
                assert(table@.skip(1)[0] == table@[1]);
                assert(table@.skip(1).skip(1)[0] == table@[2]);
                assert(table@.skip(1).skip(1).skip(1).len() == 0);
            }
            reveal_strlit("uuid");
            reveal_strlit("primary");
            reveal_strlit("path");
        }
        let mut uuid: Option<String> = None;
        let mut path: Option<String> = None;
        let mut primary: Option<bool> = None;
        let mut idx: usize = 0;
        while idx < exprs.len()
            invariant
                idx <= exprs@.len(),
                forall|j: int| 0 <= j < idx ==> service_entry_ok(#[trigger] exprs@[j]),
                (match uuid {
                    Some(u) => last_str_arg(exprs@.take(idx as int), "uuid"@) == Some(u@),
                    None => last_str_arg(exprs@.take(idx as int), "uuid"@) is None,
                }),
                (match path {
                    Some(p) => last_str_arg(exprs@.take(idx as int), "path"@) == Some(p@),
                    None => last_str_arg(exprs@.take(idx as int), "path"@) is None,
                }),
                primary == last_bool_arg(exprs@.take(idx as int), "primary"@),
            decreases exprs@.len() - idx,
        {
            let e = &exprs[idx];
            match get_valid_arg(&table, e) {
                Err(err) => {
                    return Err(err);
                },
                Ok((name, value)) => {
                    proof {
                        reveal_strlit("uuid");
                        reveal_strlit("primary");
                        reveal_strlit("path");
                        assert("uuid"@[0] == 'u' && "path"@[0] == 'p' && "primary"@.len() == 7);
                        lemma_last_str_arg_step(exprs@, idx as int, "uuid"@);
                        lemma_last_str_arg_step(exprs@, idx as int, "path"@);
                        lemma_last_bool_arg_step(exprs@, idx as int, "primary"@);
                    }
                    if str_eq(name.as_str(), "uuid") {
                        match value {
                            ArgValueType::Str(Some(s)) => {
                                uuid = Some(s);
                            },
                            _ => {
                                proof {
                                    assert(false);
                                }
                            },
                        }
                    } else if str_eq(name.as_str(), "primary") {
                        match value {
                            ArgValueType::Bool(Some(b)) => {
                                primary = Some(b);
                            },
                            _ => {
                                proof {
                                    assert(false);
                                }
                            },
                        }
                    } else if str_eq(name.as_str(), "path") {
                        match value {
                            ArgValueType::Str(Some(s)) => {
                                path = Some(s);
                            },
                            _ => {
                                proof {
                                    assert(false);
                                }
                            },
                        }
                    } else {
                        proof {
                            assert(false);
                        }
                    }
                    idx = idx + 1;
                },
            }
        }
        proof {
            assert(exprs@.take(exprs@.len() as int) =~= exprs@);
        }
        match uuid {
            Some(u) => Ok(GattServiceArgs { uuid: u, path, primary }),
            None => Err(ParseError::MissingUuid),
        }
    }
}

} // verus!
