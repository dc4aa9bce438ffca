//! The characteristic schema: `uuid` (required string), `flags`
//! (optional list of strings), `service` and `path` (optional strings).

use vstd::prelude::*;

use crate::util::AnnExpr;
use crate::util::AnnKey;
use crate::util::AnnValue;
use crate::util::ArgTag;
use crate::util::ArgValueType;
use crate::util::ParseError;
use crate::util::RecognizedArg;
use crate::util::ann_value_parses;
use crate::util::ann_value_tag;
use crate::util::get_valid_arg;
use crate::util::last_list_arg;
use crate::util::last_str_arg;
use crate::util::lemma_last_list_arg_step;
use crate::util::lemma_last_str_arg_step;
use crate::util::str_eq;
use crate::util::str_views;
use crate::util::strlit_views;
use crate::util::table_lookup;

verus! {

/// The validated arguments of a characteristic annotation.
#[derive(Debug, PartialEq, Eq)]
pub struct GattCharacteristicArgs {
    /// The characteristic UUID, required.
    pub uuid: String,
    /// The capability flags; absent means none.
    pub flags: Option<Vec<String>>,
    /// An explicit owning-service designation; parsed and validated
    /// but not consulted by the registration logic.
    pub service: Option<String>,
    /// An explicit object-path override.
    pub path: Option<String>,
}

/// The recognized-argument table of a characteristic annotation.
pub open spec fn characteristic_lookup(k: Seq<char>) -> Option<ArgTag> {
    if k == "uuid"@ {
        Some(ArgTag::Str)
    } else if k == "flags"@ {
        Some(ArgTag::StrList)
    } else if k == "service"@ {
        Some(ArgTag::Str)
    } else if k == "path"@ {
        Some(ArgTag::Str)
    } else {
        None
    }
}

/// The expression is acceptable to the characteristic schema.
pub open spec fn characteristic_entry_ok(e: AnnExpr) -> bool {
    match e {
        AnnExpr::Assign(AnnKey::Ident(k), v) => ann_value_parses(v) && characteristic_lookup(k@)
            == Some(ann_value_tag(v)),
        _ => false,
    }
}

/// The error a failing expression is reported with under the
/// characteristic schema: shape first, then key recognition, then type.
pub open spec fn characteristic_err_matches(err: ParseError, e: AnnExpr) -> bool {
    match e {
        AnnExpr::Other => err == ParseError::NotAnExpression,
        AnnExpr::Assign(AnnKey::Other, _) => err == ParseError::KeyNotAnIdentifier,
        AnnExpr::Assign(AnnKey::Ident(k), v) => if !ann_value_parses(v) {
            err == ParseError::InvalidValue
        } else {
            match characteristic_lookup(k@) {
                Option::None => err matches ParseError::UnknownArg(n) && n@ == k@,
                Option::Some(tag) => tag != ann_value_tag(v)
                    && (err matches ParseError::WrongType(n, tg) && n@ == k@ && tg == tag),
            }
        },
    }
}

/// The whole argument list parses under the characteristic schema and
/// supplies the required `uuid`.
pub open spec fn characteristic_args_ok(es: Seq<AnnExpr>) -> bool {
    (forall|i: int| 0 <= i < es.len() ==> characteristic_entry_ok(#[trigger] es[i]))
        && last_str_arg(es, "uuid"@) is Some
}

impl GattCharacteristicArgs {
    /// Parses and validates a characteristic annotation argument list.
    ///
    /// Each expression must be a recognized, correctly typed
    /// assignment; on duplicate keys the last occurrence wins; the
    /// `uuid` argument is required.  The first failing expression
    /// decides the error.
    #[verifier::loop_isolation(false)]
    pub fn parse(exprs: &Vec<AnnExpr>) -> (r: Result<GattCharacteristicArgs, ParseError>)
        ensures
            r is Ok <==> characteristic_args_ok(exprs@),
            r matches Ok(a) ==> Some(a.uuid@) == last_str_arg(exprs@, "uuid"@),
            r matches Ok(a) ==> (match a.flags {
                Some(l) => last_list_arg(exprs@, "flags"@) == Some(str_views(l@)),
                None => last_list_arg(exprs@, "flags"@) is None,
            }),
            r matches Ok(a) ==> (match a.service {
                Some(s) => last_str_arg(exprs@, "service"@) == Some(s@),
                None => last_str_arg(exprs@, "service"@) is None,
            }),
            r matches Ok(a) ==> (match a.path {
                Some(p) => last_str_arg(exprs@, "path"@) == Some(p@),
                None => last_str_arg(exprs@, "path"@) is None,
            }),
            r matches Err(err) ==> ({
                ||| exists|i: int|
                    0 <= i < exprs@.len() && !characteristic_entry_ok(#[trigger] exprs@[i]) && (
                    forall|j: int|
                        0 <= j < i ==> characteristic_entry_ok(#[trigger] exprs@[j]))
                        && characteristic_err_matches(err, exprs@[i])
                ||| (forall|i: int|
                    0 <= i < exprs@.len() ==> characteristic_entry_ok(#[trigger] exprs@[i]))
                    && last_str_arg(exprs@, "uuid"@) is None && err == ParseError::MissingUuid
            }),
    {
        let mut table: Vec<RecognizedArg> = Vec::new();
        table.push(RecognizedArg { name: "uuid".to_owned(), placeholder: ArgValueType::Str(None) });
        table.push(
            RecognizedArg { name: "flags".to_owned(), placeholder: ArgValueType::StrList(None) },
        );
        table.push(
            RecognizedArg { name: "service".to_owned(), placeholder: ArgValueType::Str(None) },
        );
        table.push(RecognizedArg { name: "path".to_owned(), placeholder: ArgValueType::Str(None) });
        proof {
            assert forall|k: Seq<char>| table_lookup(table@, k) == characteristic_lookup(k) by {
                reveal_with_fuel(table_lookup, 6);
                assert(table@.skip(1)[0] == table@[1]);
                assert(table@.skip(1).skip(1)[0] == table@[2]);
                assert(table@.skip(1).skip(1).skip(1)[0] == table@[3]);
                assert(table@.skip(1).skip(1).skip(1).skip(1).len() == 0);
            }
        }
        let mut uuid: Option<String> = None;
        let mut flags: Option<Vec<String>> = None;
        let mut service: Option<String> = None;
        let mut path: Option<String> = None;
        let mut idx: usize = 0;
        while idx < exprs.len()
            invariant
                idx <= exprs@.len(),
                forall|j: int| 0 <= j < idx ==> characteristic_entry_ok(#[trigger] exprs@[j]),
                (match uuid {
                    Some(u) => last_str_arg(exprs@.take(idx as int), "uuid"@) == Some(u@),
                    None => last_str_arg(exprs@.take(idx as int), "uuid"@) is None,
                }),
                (match flags {
                    Some(l) => last_list_arg(exprs@.take(idx as int), "flags"@) == Some(
                        str_views(l@),
                    ),
                    None => last_list_arg(exprs@.take(idx as int), "flags"@) is None,
                }),
                (match service {
                    Some(s) => last_str_arg(exprs@.take(idx as int), "service"@) == Some(s@),
                    None => last_str_arg(exprs@.take(idx as int), "service"@) is None,
                }),
                (match path {
                    Some(p) => last_str_arg(exprs@.take(idx as int), "path"@) == Some(p@),
                    None => last_str_arg(exprs@.take(idx as int), "path"@) is None,
                }),
            decreases exprs@.len() - idx,
        {
            let e = &exprs[idx];
            match get_valid_arg(&table, e) {
                Err(err) => {
                    return Err(err);
                },
                Ok((name, value)) => {
                    proof {
                        reveal_strlit("uuid");
                        reveal_strlit("flags");
                        reveal_strlit("service");
                        reveal_strlit("path");
                        assert("uuid"@[0] == 'u' && "path"@[0] == 'p' && "flags"@[0] == 'f');
                        assert("service"@.len() == 7 && "flags"@.len() == 5);
                        lemma_last_str_arg_step(exprs@, idx as int, "uuid"@);
                        lemma_last_str_arg_step(exprs@, idx as int, "service"@);
                        lemma_last_str_arg_step(exprs@, idx as int, "path"@);
                        lemma_last_list_arg_step(exprs@, idx as int, "flags"@);
                    }
                    if str_eq(name.as_str(), "uuid") {
                        match value {
                            ArgValueType::Str(Some(s)) => {
                                uuid = Some(s);
                            },
                            _ => {
                                proof {
                                    assert(false);
                                }
                            },
                        }
                    } else if str_eq(name.as_str(), "flags") {
                        match value {
                            ArgValueType::StrList(Some(l)) => {
                                proof {
                                    let ev = crate::util::expr_value(exprs@[idx as int]);
                                    assert(str_views(l@) =~= strlit_views(ev->Array_0@));
                                }
                                flags = Some(l);
                            },
                            _ => {
                                proof {
                                    assert(false);
                                }
                            },
                        }
                    } else if str_eq(name.as_str(), "service") {
                        match value {
                            ArgValueType::Str(Some(s)) => {
                                service = Some(s);
                            },
                            _ => {
                                proof {
                                    assert(false);
                                }
                            },
                        }
                    } else if str_eq(name.as_str(), "path") {
                        match value {
                            ArgValueType::Str(Some(s)) => {
                                path = Some(s);
                            },
                            _ => {
                                proof {
                                    assert(false);
                                }
                            },
                        }
                    } else {
                        proof {
                            assert(false);
                        }
                    }
                    idx = idx + 1;
                },
            }
        }
        proof {
            assert(exprs@.take(exprs@.len() as int) =~= exprs@);
        }
        match uuid {
            Some(u) => Ok(GattCharacteristicArgs { uuid: u, flags, service, path }),
            None => Err(ParseError::MissingUuid),
        }
    }
}

} // verus!
