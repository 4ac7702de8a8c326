//! The JSON tree the completion service answers with, modeled as a plain
//! value, and the walk that collects every `output_text` fragment out of
//! it.  Turning response bytes into this tree happens outside; the walk
//! and the field lookups are verified here.

use vstd::prelude::*;
use vstd::string::StrSliceExecFns;
use crate::text::str_eq;
use crate::types::ResponsesResult;

verus! {

/// A JSON value.  Numbers keep their literal text: no part of the logic
/// reads them as numbers.
pub enum JsonValue {
    Null,
    Bool(bool),
    Num(String),
    Str(String),
    Arr(Vec<JsonValue>),
    Obj(Vec<(String, JsonValue)>),
}

/// First field with the given name, in object order.
pub open spec fn lookup_field(fields: Seq<(String, JsonValue)>, key: Seq<char>) -> Option<
    JsonValue,
>
    decreases fields.len(),
{
    if fields.len() == 0 {
        None
    } else if fields[0].0@ == key {
        Some(fields[0].1)
    } else {
        lookup_field(fields.drop_first(), key)
    }
}

/// What an object itself contributes: its `text` field, when its `type`
/// field says `output_text` and both are strings.
pub open spec fn own_emit(fields: Seq<(String, JsonValue)>) -> Seq<Seq<char>> {
    match (lookup_field(fields, "type"@), lookup_field(fields, "text"@)) {
        (Some(ty), Some(tx)) => match (ty, tx) {
            (JsonValue::Str(tys), JsonValue::Str(txs)) => if tys@ == "output_text"@ {
                seq![txs@]
            } else {
                Seq::empty()
            },
            _ => Seq::empty(),
        },
        _ => Seq::empty(),
    }
}

/// Every `output_text` fragment under `v`, in walk order: an object
/// contributes its own fragment first, then its values in field order;
/// an array contributes its elements in order.
pub open spec fn emitted(v: JsonValue) -> Seq<Seq<char>>
    decreases v,
{
    match v {
        JsonValue::Obj(fields) => own_emit(fields@) + emit_fields(fields@),
        JsonValue::Arr(elems) => emit_elems(elems@),
        _ => Seq::empty(),
    }
}

/// The fragments under each field value, in order.
pub open spec fn emit_fields(fields: Seq<(String, JsonValue)>) -> Seq<Seq<char>>
    decreases fields,
{
    if fields.len() == 0 {
        Seq::empty()
    } else {
        emitted(fields[0].1) + emit_fields(fields.drop_first())
    }
}

/// The fragments under each element, in order.
pub open spec fn emit_elems(elems: Seq<JsonValue>) -> Seq<Seq<char>>
    decreases elems,
{
    if elems.len() == 0 {
        Seq::empty()
    } else {
        emitted(elems[0]) + emit_elems(elems.drop_first())
    }
}

/// One fragment appended to the collected text: a newline joins it when
/// text is already there.
pub open spec fn append_one(acc: Seq<char>, t: Seq<char>) -> Seq<char> {
    if acc.len() > 0 {
        acc + seq!['\n'] + t
    } else {
        acc + t
    }
}

/// The fragments folded onto `acc` in order.
pub open spec fn accumulate(acc: Seq<char>, texts: Seq<Seq<char>>) -> Seq<char>
    decreases texts.len(),
{
    if texts.len() == 0 {
        acc
    } else {
        accumulate(append_one(acc, texts[0]), texts.drop_first())
    }
}

proof fn lemma_accumulate_append(acc: Seq<char>, a: Seq<Seq<char>>, b: Seq<Seq<char>>)
    ensures
        accumulate(acc, a + b) == accumulate(accumulate(acc, a), b),
    decreases a.len(),
{
    if a.len() == 0 {
        assert(a + b =~= b);
    } else {
        assert((a + b)[0] == a[0]);
        assert((a + b).drop_first() =~= a.drop_first() + b);
        lemma_accumulate_append(append_one(acc, a[0]), a.drop_first(), b);
    }
}

fn find_field<'a>(fields: &'a Vec<(String, JsonValue)>, key: &str) -> (r: Option<&'a JsonValue>)
    ensures
        match r {
            Some(v) => lookup_field(fields@, key@) == Some(*v),
            None => lookup_field(fields@, key@) is None,
        },
{
    let n = fields.len();
    let mut i: usize = 0;
    proof {
        assert(fields@.skip(0) =~= fields@);
    }
    while i < n
        invariant
            n == fields@.len(),
            i <= n,
            lookup_field(fields@, key@) == lookup_field(fields@.skip(i as int), key@),
        decreases n - i,
    {
        let ghost rest = fields@.skip(i as int);
        if str_eq(fields[i].0.as_str(), key) {
            return Some(&fields[i].1);
        }
        i += 1;
        proof {
            assert(rest.drop_first() =~= fields@.skip(i as int));
        }
    }
    proof {
        assert(fields@.skip(n as int) =~= Seq::<(String, JsonValue)>::empty());
    }
    None
}

/// Walks `v` and appends every `output_text` fragment to `out`, a newline
/// before each fragment once `out` is non-empty.
#[verifier::loop_isolation(false)]
pub fn extract_output_text(v: &JsonValue, out: &mut String)
    ensures
        final(out)@ == accumulate(old(out)@, emitted(*v)),
    decreases *v,
{
    match v {
        JsonValue::Obj(fields) => {
            let ghost whole = emitted(*v);
            let ty = find_field(fields, "type");
            let tx = find_field(fields, "text");
            let mut emitted_own = false;
            if let Some(JsonValue::Str(tys)) = ty {
                if let Some(JsonValue::Str(txs)) = tx {
                    if str_eq(tys.as_str(), "output_text") {
                        if !out.as_str().is_empty() {
                            out.append("\n");
                        }
                        out.append(txs.as_str());
                        emitted_own = true;
                        proof {
                            reveal_strlit("\n");
                            assert(own_emit(fields@) =~= seq![txs@]);
                            let oe = own_emit(fields@);
                            assert(oe.len() == 1 && oe[0] == txs@);
                            assert(oe.drop_first() =~= Seq::<Seq<char>>::empty());
                            assert(accumulate(old(out)@, oe) == accumulate(
                                append_one(old(out)@, oe[0]),
                                oe.drop_first(),
                            ));
                            assert(accumulate(append_one(old(out)@, oe[0]), oe.drop_first())
                                == append_one(old(out)@, txs@));
                            assert(out@ =~= append_one(old(out)@, txs@));
                        }
                    }
                }
            }
            proof {
                if !emitted_own {
                    assert(own_emit(fields@) =~= Seq::<Seq<char>>::empty());
                    assert(out@ == accumulate(old(out)@, own_emit(fields@)));
                }
            }
            let ghost mid = out@;
            let n = fields.len();
            let mut i: usize = 0;
            proof {
                assert(fields@.skip(0) =~= fields@);
            }
            while i < n
                invariant
                    n == fields@.len(),
                    accumulate(mid, emit_fields(fields@)) == accumulate(
                        out@,
                        emit_fields(fields@.skip(i as int)),
                    ),
                    i <= n,
                decreases n - i,
            {
                let ghost rest = fields@.skip(i as int);
                let ghost before = out@;
                proof {
                    assert(rest[0] == fields@[i as int]);
                    assert((*v)->Obj_0 == *fields);
                    assert(decreases_to!(*v => (*v)->Obj_0));
                    assert(decreases_to!(*fields => fields@));
                    assert(decreases_to!(fields@ => fields@[i as int]));
                    assert(decreases_to!(fields@[i as int] => fields@[i as int].1));
                    assert(decreases_to!(*v => fields@[i as int].1));
                }
                extract_output_text(&fields[i].1, out);
                i += 1;
                proof {
                    assert(rest.drop_first() =~= fields@.skip(i as int));
                    lemma_accumulate_append(
                        before,
                        emitted(fields@[i - 1].1),
                        emit_fields(fields@.skip(i as int)),
                    );
                    assert(emitted(fields@[i - 1].1) + emit_fields(fields@.skip(i as int))
                        =~= emit_fields(rest));
                }
            }
            proof {
                assert(emit_fields(fields@.skip(n as int)) =~= Seq::<Seq<char>>::empty());
                lemma_accumulate_append(old(out)@, own_emit(fields@), emit_fields(fields@));
                assert(emitted(*v) =~= own_emit(fields@) + emit_fields(fields@));
            }
        },
        JsonValue::Arr(elems) => {
            let n = elems.len();
            let ghost mid = out@;
            let mut i: usize = 0;
            proof {
                assert(elems@.skip(0) =~= elems@);
            }
            while i < n
                invariant
                    n == elems@.len(),
                    accumulate(mid, emit_elems(elems@)) == accumulate(
                        out@,
                        emit_elems(elems@.skip(i as int)),
                    ),
                    i <= n,
                decreases n - i,
            {
                let ghost rest = elems@.skip(i as int);
                let ghost before = out@;
                proof {
                    assert(rest[0] == elems@[i as int]);
                    assert((*v)->Arr_0 == *elems);
                    assert(decreases_to!(*v => (*v)->Arr_0));
                    assert(decreases_to!(*elems => elems@));
                    assert(decreases_to!(elems@ => elems@[i as int]));
                    assert(decreases_to!(*v => elems@[i as int]));
                }
                extract_output_text(&elems[i], out);
                i += 1;
                proof {
                    assert(rest.drop_first() =~= elems@.skip(i as int));
                    lemma_accumulate_append(
                        before,
                        emitted(elems@[i - 1]),
                        emit_elems(elems@.skip(i as int)),
                    );
                    assert(emitted(elems@[i - 1]) + emit_elems(elems@.skip(i as int))
                        =~= emit_elems(rest));
                }
            }
            proof {
                assert(emit_elems(elems@.skip(n as int)) =~= Seq::<Seq<char>>::empty());
            }
        },
        _ => {
            proof {
                assert(emitted(*v) =~= Seq::<Seq<char>>::empty());
            }
        },
    }
}

/// The string field `key` of `v`, when `v` is an object and the field a
/// string.
pub open spec fn get_str(v: JsonValue, key: Seq<char>) -> Option<Seq<char>> {
    match v {
        JsonValue::Obj(fields) => match lookup_field(fields@, key) {
            Some(f) => match f {
                JsonValue::Str(s) => Some(s@),
                _ => None,
            },
            _ => None,
        },
        _ => None,
    }
}

/// The field `key` of `v`, when `v` is an object that has it.
pub open spec fn get_field(v: JsonValue, key: Seq<char>) -> Option<JsonValue> {
    match v {
        JsonValue::Obj(fields) => lookup_field(fields@, key),
        _ => None,
    }
}

/// Distills a decoded response body: the `id` and `status` string fields
/// (empty text when absent, the status always reported), and every
/// `output_text` fragment under `output`, newline-joined.
pub fn parse_responses_result(v: &JsonValue) -> (r: ResponsesResult)
    ensures
        r.id@ == match get_str(*v, "id"@) {
            Some(s) => s,
            None => Seq::<char>::empty(),
        },
        match r.status {
            Some(st) => st@ == match get_str(*v, "status"@) {
                Some(s) => s,
                None => Seq::<char>::empty(),
            },
            None => false,
        },
        r.text@ == match get_field(*v, "output"@) {
            Some(o) => accumulate(Seq::empty(), emitted(o)),
            None => Seq::<char>::empty(),
        },
{
    let id = match get_str_exec(v, "id") {
        Some(s) => s,
        None => String::new(),
    };
    let status = match get_str_exec(v, "status") {
        Some(s) => s,
        None => String::new(),
    };
    let mut text = String::new();
    match v {
        JsonValue::Obj(fields) => {
            match find_field(fields, "output") {
                Some(o) => {
                    extract_output_text(o, &mut text);
                },
                None => {},
            }
        },
        _ => {},
    }
    ResponsesResult { id, text, status: Some(status) }
}

fn get_str_exec(v: &JsonValue, key: &str) -> (r: Option<String>)
    ensures
        match r {
            Some(s) => get_str(*v, key@) == Some(s@),
            None => get_str(*v, key@) is None,
        },
{
    match v {
        JsonValue::Obj(fields) => match find_field(fields, key) {
            Some(f) => match f {
                JsonValue::Str(s) => Some(s.clone()),
                _ => None,
            },
            None => None,
        },
        _ => None,
    }
}

} // verus!
