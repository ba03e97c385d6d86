//! What the session reads of the compiler's results: inferred types and how
//! they are written.

use crate::text::{decimal_text, has_text, push_decimal, same_text, starts_with};
use vstd::prelude::*;

verus! {

/// An inferred type, as far as it is shown to the user.
#[derive(Debug)]
pub enum Type {
    /// A type with a name, such as `Int` or `List(a)`.
    Named { name: String, args: Vec<Type> },
    /// A function type.
    Fn { args: Vec<Type>, retrn: Box<Type> },
    /// A tuple type.
    Tuple { elems: Vec<Type> },
    /// A type variable that nothing has bound yet; `id` tells the variables
    /// apart.
    Var { id: u64 },
}

/// The ids of the variables in `ty`, left to right, each as often as it
/// occurs.
pub open spec fn vars_of(ty: Type) -> Seq<u64>
    decreases ty, 0nat,
{
    match ty {
        Type::Named { name, args } => vars_of_list(args@, args@.len() as int),
        Type::Fn { args, retrn } => vars_of_list(args@, args@.len() as int) + vars_of(*retrn),
        Type::Tuple { elems } => vars_of_list(elems@, elems@.len() as int),
        Type::Var { id } => seq![id],
    }
}

/// The ids of the variables in the first `upto` of `types`.
pub open spec fn vars_of_list(types: Seq<Type>, upto: int) -> Seq<u64>
    decreases types, upto,
{
    if upto <= 0 || upto > types.len() {
        Seq::empty()
    } else {
        vars_of_list(types, upto - 1) + vars_of(types[upto - 1])
    }
}

/// The place of the first `id` in `names`; their number where there is none.
pub open spec fn position(names: Seq<u64>, id: u64) -> int
    decreases names.len(),
{
    if names.len() == 0 {
        0
    } else if names[0] == id {
        0
    } else {
        1 + position(names.drop_first(), id)
    }
}

/// `names`, followed by those of `ids` that are not yet among them, each
/// once, in the order in which they first come.
pub open spec fn with_new(names: Seq<u64>, ids: Seq<u64>) -> Seq<u64>
    decreases ids.len(),
{
    if ids.len() == 0 {
        names
    } else {
        let before = with_new(names, ids.drop_last());
        if before.contains(ids.last()) {
            before
        } else {
            before.push(ids.last())
        }
    }
}

/// Whether the variable in place `pos` has a letter: `a` for the first, `b`
/// for the second, and so on through the code points that follow.
pub open spec fn has_letter(pos: int) -> bool {
    0 <= pos && (97 + pos < 0xD800 || 0xE000 <= 97 + pos <= 0x10FFFF)
}

/// The letter of the variable in place `pos`.
pub open spec fn letter(pos: int) -> char {
    ((97 + pos) as u32) as char
}

/// How `ty` is written where the variables are numbered by their place in
/// `names`.
pub open spec fn type_text(ty: Type, names: Seq<u64>) -> Seq<char>
    decreases ty, 0nat,
{
    match ty {
        Type::Named { name, args } => if args@.len() == 0 {
            name@
        } else {
            name@ + "("@ + list_text(args@, args@.len() as int, names) + ")"@
        },
        Type::Fn { args, retrn } => "fn("@ + list_text(args@, args@.len() as int, names) + ") -> "@
            + type_text(*retrn, names),
        Type::Tuple { elems } => "#("@ + list_text(elems@, elems@.len() as int, names) + ")"@,
        Type::Var { id } => seq![letter(position(names, id))],
    }
}

/// The first `upto` of `types`, written with `", "` between them.
pub open spec fn list_text(types: Seq<Type>, upto: int, names: Seq<u64>) -> Seq<char>
    decreases types, upto,
{
    if upto <= 0 || upto > types.len() {
        Seq::empty()
    } else if upto == 1 {
        type_text(types[0], names)
    } else {
        list_text(types, upto - 1, names) + ", "@ + type_text(types[upto - 1], names)
    }
}

/// Whether each of `ids` has a letter where the variables are numbered by
/// their place in `names`.
pub open spec fn all_lettered(names: Seq<u64>, ids: Seq<u64>) -> bool {
    forall|k: int| 0 <= k < ids.len() ==> has_letter(position(names, #[trigger] ids[k]))
}

/// Whether every variable of `ty` has a letter when the variables that
/// `names` lacks are numbered after those it holds.
pub open spec fn lettered(ty: Type, names: Seq<u64>) -> bool {
    all_lettered(with_new(names, vars_of(ty)), vars_of(ty))
}

/// Whether every variable of a function type with these arguments and this
/// result has a letter.
pub open spec fn fn_lettered(args: Seq<Type>, retrn: Type, names: Seq<u64>) -> bool {
    let ids = vars_of_list(args, args.len() as int) + vars_of(retrn);
    all_lettered(with_new(names, ids), ids)
}

/// How the function type with these arguments and this result is written.
pub open spec fn fn_text(args: Seq<Type>, retrn: Type, names: Seq<u64>) -> Seq<char> {
    "fn("@ + list_text(args, args.len() as int, names) + ") -> "@ + type_text(retrn, names)
}

/// The place of an id lies among the names exactly where the names hold the
/// id, and the name in that place is the id.
pub proof fn lemma_position_bounds(names: Seq<u64>, id: u64)
    ensures
        0 <= position(names, id) <= names.len(),
        position(names, id) < names.len() <==> names.contains(id),
        position(names, id) < names.len() ==> names[position(names, id)] == id,
    decreases names.len(),
{
    if names.len() == 0 {
    } else if names[0] == id {
    } else {
        let rest = names.drop_first();
        lemma_position_bounds(rest, id);
        if rest.contains(id) {
            let j = choose|j: int| 0 <= j < rest.len() && rest[j] == id;
            assert(names[j + 1] == id);
        }
        if names.contains(id) {
            let j = choose|j: int| 0 <= j < names.len() && names[j] == id;
            assert(rest[j - 1] == id);
        }
    }
}

/// Numbering more variables keeps the places of those numbered before.
pub proof fn lemma_position_stable(a: Seq<u64>, b: Seq<u64>, id: u64)
    requires
        a.is_prefix_of(b),
        a.contains(id),
    ensures
        position(a, id) == position(b, id),
    decreases a.len(),
{
    let j = choose|j: int| 0 <= j < a.len() && a[j] == id;
    assert(b.subrange(0, a.len() as int)[0] == b[0]);
    if a[0] == id {
    } else {
        assert(a.drop_first()[j - 1] == id);
        assert(a.drop_first() =~= b.drop_first().subrange(0, a.len() - 1));
        lemma_position_stable(a.drop_first(), b.drop_first(), id);
    }
}

/// Numbering more variables keeps the names that were there, at their
/// places, and gives each of the new ids a name.
pub proof fn lemma_with_new_grows(names: Seq<u64>, ids: Seq<u64>)
    ensures
        names.is_prefix_of(with_new(names, ids)),
        forall|k: int| 0 <= k < ids.len() ==> with_new(names, ids).contains(#[trigger] ids[k]),
    decreases ids.len(),
{
    if ids.len() == 0 {
        assert(names =~= names.subrange(0, names.len() as int));
    } else {
        let front = ids.drop_last();
        let before = with_new(names, front);
        let after = with_new(names, ids);
        lemma_with_new_grows(names, front);
        assert(before.is_prefix_of(after)) by {
            assert(before =~= after.subrange(0, before.len() as int));
        }
        assert(names =~= after.subrange(0, names.len() as int));
        assert forall|k: int| 0 <= k < ids.len() implies after.contains(#[trigger] ids[k]) by {
            if k < ids.len() - 1 {
                assert(front[k] == ids[k]);
                let j = choose|j: int| 0 <= j < before.len() && before[j] == ids[k];
                assert(after[j] == ids[k]);
            } else {
                if before.contains(ids.last()) {
                } else {
                    assert(after[before.len() as int] == ids.last());
                }
            }
        }
    }
}

/// To number the ids of two lists one after the other is to number the ids
/// of the two lists put together.
pub proof fn lemma_with_new_concat(names: Seq<u64>, a: Seq<u64>, b: Seq<u64>)
    ensures
        with_new(names, a + b) == with_new(with_new(names, a), b),
    decreases b.len(),
{
    if b.len() == 0 {
        assert(a + b =~= a);
    } else {
        assert((a + b).drop_last() =~= a + b.drop_last());
        assert((a + b).last() == b.last());
        lemma_with_new_concat(names, a, b.drop_last());
    }
}

/// Whether `names` holds each of `ids`.
pub open spec fn holds_all(names: Seq<u64>, ids: Seq<u64>) -> bool {
    forall|k: int| 0 <= k < ids.len() ==> names.contains(#[trigger] ids[k])
}

proof fn lemma_holds_parts(names: Seq<u64>, a: Seq<u64>, b: Seq<u64>)
    requires
        holds_all(names, a + b),
    ensures
        holds_all(names, a),
        holds_all(names, b),
{
    assert forall|k: int| 0 <= k < a.len() implies names.contains(#[trigger] a[k]) by {
        assert((a + b)[k] == a[k]);
    }
    assert forall|k: int| 0 <= k < b.len() implies names.contains(#[trigger] b[k]) by {
        assert((a + b)[a.len() + k] == b[k]);
    }
}

/// Numbering more variables does not change how a type is written whose
/// variables are all numbered already.
pub proof fn lemma_type_text_stable(ty: Type, a: Seq<u64>, b: Seq<u64>)
    requires
        a.is_prefix_of(b),
        holds_all(a, vars_of(ty)),
    ensures
        type_text(ty, a) == type_text(ty, b),
    decreases ty, 0nat,
{
    match ty {
        Type::Named { name, args } => {
            lemma_list_text_stable(args@, args@.len() as int, a, b);
        },
        Type::Fn { args, retrn } => {
            lemma_holds_parts(a, vars_of_list(args@, args@.len() as int), vars_of(*retrn));
            lemma_list_text_stable(args@, args@.len() as int, a, b);
            lemma_type_text_stable(*retrn, a, b);
        },
        Type::Tuple { elems } => {
            lemma_list_text_stable(elems@, elems@.len() as int, a, b);
        },
        Type::Var { id } => {
            assert(vars_of(ty)[0] == id);
            lemma_position_stable(a, b, id);
        },
    }
}

/// Numbering more variables does not change how types are written whose
/// variables are all numbered already.
pub proof fn lemma_list_text_stable(types: Seq<Type>, upto: int, a: Seq<u64>, b: Seq<u64>)
    requires
        a.is_prefix_of(b),
        holds_all(a, vars_of_list(types, upto)),
    ensures
        list_text(types, upto, a) == list_text(types, upto, b),
    decreases types, upto,
{
    if upto <= 0 || upto > types.len() {
    } else {
        lemma_holds_parts(a, vars_of_list(types, upto - 1), vars_of(types[upto - 1]));
        lemma_type_text_stable(types[upto - 1], a, b);
        if upto > 1 {
            lemma_list_text_stable(types, upto - 1, a, b);
        }
    }
}

/// `char::from_u32` gives the character with the code `i`, where there is
/// one: where `i` is a Unicode scalar value.
pub assume_specification[ char::from_u32 ](i: u32) -> (c: Option<char>)
    ensures
        c == (if vstd::utf8::is_scalar(i) {
            Some(i as char)
        } else {
            None::<char>
        }),
;

fn find(names: &Vec<u64>, id: u64) -> (pos: usize)
    ensures
        pos == position(names@, id),
{
    let mut i: usize = 0;
    assert(names@.skip(0) =~= names@);
    while i < names.len()
        invariant
            i <= names.len(),
            position(names@, id) == i + position(names@.skip(i as int), id),
        decreases names.len() - i,
    {
        if names[i] == id {
            return i;
        }
        assert(names@.skip(i as int).drop_first() =~= names@.skip(i + 1));
        i += 1;
    }
    i
}

fn var_to_string(id: u64, unbounds: &mut Vec<u64>) -> (text: String)
    requires
        has_letter(position(with_new(old(unbounds)@, seq![id]), id)),
    ensures
        final(unbounds)@ == with_new(old(unbounds)@, seq![id]),
        text@ == seq![letter(position(final(unbounds)@, id))],
{
    let pos = find(unbounds, id);
    proof {
        lemma_position_bounds(unbounds@, id);
        assert(seq![id].drop_last() =~= Seq::<u64>::empty());
        assert(with_new(unbounds@, seq![id].drop_last()) == unbounds@);
    }
    if pos == unbounds.len() {
        unbounds.push(id);
    }
    proof {
        lemma_position_bounds(unbounds@, id);
        let now = position(unbounds@, id);
        if pos == old(unbounds)@.len() {
            assert(unbounds@ == old(unbounds)@.push(id));
            assert(unbounds@[pos as int] == id);
            if now < pos {
                assert(old(unbounds)@[now] == id);
            }
        } else {
            assert(unbounds@ == old(unbounds)@);
        }
        assert(now == pos);
    }
    let code: u32 = 97 + pos as u32;
    assert(vstd::utf8::is_scalar(code));
    let c = char::from_u32(code).unwrap();
    let mut text = String::new();
    text.push(c);
    text
}

/// The ids of the variables in `types` from place `from` up to `upto`.
pub open spec fn vars_after(types: Seq<Type>, from: int, upto: int) -> Seq<u64>
    decreases upto - from,
{
    if upto <= from || from < 0 || upto > types.len() {
        Seq::empty()
    } else {
        vars_after(types, from, upto - 1) + vars_of(types[upto - 1])
    }
}

proof fn lemma_vars_after_all(types: Seq<Type>, upto: int)
    ensures
        vars_after(types, 0, upto) == vars_of_list(types, upto),
    decreases upto,
{
    if upto <= 0 || upto > types.len() {
    } else {
        lemma_vars_after_all(types, upto - 1);
    }
}

proof fn lemma_vars_after_first(types: Seq<Type>, from: int, upto: int)
    requires
        0 <= from < upto <= types.len(),
    ensures
        vars_after(types, from, upto) == vars_of(types[from]) + vars_after(types, from + 1, upto),
    decreases upto - from,
{
    if upto == from + 1 {
        assert(vars_after(types, from, upto - 1) =~= Seq::<u64>::empty());
        assert(vars_after(types, from + 1, upto) =~= Seq::<u64>::empty());
        assert(vars_after(types, from, upto) =~= vars_of(types[from]));
        assert(vars_of(types[from]) + Seq::<u64>::empty() =~= vars_of(types[from]));
    } else {
        lemma_vars_after_first(types, from, upto - 1);
        assert((vars_of(types[from]) + vars_after(types, from + 1, upto - 1)) + vars_of(
            types[upto - 1],
        ) =~= vars_of(types[from]) + (vars_after(types, from + 1, upto - 1) + vars_of(
            types[upto - 1],
        )));
    }
}

proof fn lemma_lettered_front(names: Seq<u64>, a: Seq<u64>, b: Seq<u64>)
    requires
        all_lettered(with_new(names, a + b), a + b),
    ensures
        all_lettered(with_new(names, a), a),
{
    let mid = with_new(names, a);
    let end = with_new(names, a + b);
    lemma_with_new_concat(names, a, b);
    lemma_with_new_grows(names, a);
    lemma_with_new_grows(mid, b);
    assert forall|k: int| 0 <= k < a.len() implies has_letter(position(mid, #[trigger] a[k])) by {
        assert((a + b)[k] == a[k]);
        lemma_position_stable(mid, end, a[k]);
    }
}

proof fn lemma_lettered_back(names: Seq<u64>, a: Seq<u64>, b: Seq<u64>)
    requires
        all_lettered(with_new(names, a + b), a + b),
    ensures
        all_lettered(with_new(with_new(names, a), b), b),
{
    lemma_with_new_concat(names, a, b);
    let end = with_new(names, a + b);
    assert forall|k: int| 0 <= k < b.len() implies has_letter(position(end, #[trigger] b[k])) by {
        assert((a + b)[a.len() + k] == b[k]);
    }
}

proof fn lemma_holds_more(a: Seq<u64>, b: Seq<u64>, ids: Seq<u64>, more: Seq<u64>)
    requires
        a.is_prefix_of(b),
        holds_all(a, ids),
        holds_all(b, more),
    ensures
        holds_all(b, ids + more),
{
    assert forall|k: int| 0 <= k < (ids + more).len() implies b.contains(
        #[trigger] (ids + more)[k],
    ) by {
        if k < ids.len() {
            let id = ids[k];
            let j = choose|j: int| 0 <= j < a.len() && a[j] == id;
            assert(b.subrange(0, a.len() as int)[j] == b[j]);
        } else {
            assert((ids + more)[k] == more[k - ids.len()]);
        }
    }
}

fn list_to_string(types: &Vec<Type>, unbounds: &mut Vec<u64>) -> (text: String)
    requires
        all_lettered(
            with_new(old(unbounds)@, vars_of_list(types@, types@.len() as int)),
            vars_of_list(types@, types@.len() as int),
        ),
    ensures
        final(unbounds)@ == with_new(old(unbounds)@, vars_of_list(types@, types@.len() as int)),
        text@ == list_text(types@, types@.len() as int, final(unbounds)@),
    decreases types, 1nat,
{
    let mut text = String::new();
    let n = types.len();
    let mut i: usize = 0;
    proof {
        lemma_vars_after_all(types@, n as int);
    }
    while i < n
        invariant
            i <= n,
            n == types@.len(),
            unbounds@ == with_new(old(unbounds)@, vars_of_list(types@, i as int)),
            holds_all(unbounds@, vars_of_list(types@, i as int)),
            all_lettered(
                with_new(unbounds@, vars_after(types@, i as int, n as int)),
                vars_after(types@, i as int, n as int),
            ),
            text@ == list_text(types@, i as int, unbounds@),
        decreases n - i,
    {
        let ghost before = unbounds@;
        let ghost here = vars_of(types@[i as int]);
        let ghost rest = vars_after(types@, i + 1, n as int);
        proof {
            lemma_vars_after_first(types@, i as int, n as int);
            lemma_lettered_front(before, here, rest);
            lemma_lettered_back(before, here, rest);
        }
        if i > 0 {
            text.append(", ");
        }
        let part = type_to_string_unbonds(&types[i], unbounds);
        text.append(part.as_str());
        proof {
            lemma_with_new_grows(before, here);
            lemma_with_new_concat(old(unbounds)@, vars_of_list(types@, i as int), here);
            lemma_list_text_stable(types@, i as int, before, unbounds@);
            lemma_holds_more(before, unbounds@, vars_of_list(types@, i as int), here);
        }
        i += 1;
    }
    text
}

fn type_to_string_unbonds(ty: &Type, unbounds: &mut Vec<u64>) -> (text: String)
    requires
        lettered(*ty, old(unbounds)@),
    ensures
        final(unbounds)@ == with_new(old(unbounds)@, vars_of(*ty)),
        text@ == type_text(*ty, final(unbounds)@),
    decreases ty, 0nat,
{
    match ty {
        Type::Named { name, args } => {
            let mut text = name.clone();
            if args.len() > 0 {
                text.append("(");
                let list = list_to_string(args, unbounds);
                text.append(list.as_str());
                text.append(")");
            } else {
                assert(vars_of_list(args@, 0).len() == 0);
            }
            text
        },
        Type::Fn { args, retrn } => {
            let ghost before = unbounds@;
            let ghost front = vars_of_list(args@, args@.len() as int);
            proof {
                lemma_lettered_front(before, front, vars_of(**retrn));
                lemma_lettered_back(before, front, vars_of(**retrn));
            }
            let mut text = String::from_str("fn(");
            let list = list_to_string(args, unbounds);
            let ghost mid = unbounds@;
            text.append(list.as_str());
            text.append(") -> ");
            let last = type_to_string_unbonds(retrn, unbounds);
            text.append(last.as_str());
            proof {
                lemma_with_new_concat(before, front, vars_of(**retrn));
                lemma_with_new_grows(before, front);
                lemma_with_new_grows(mid, vars_of(**retrn));
                lemma_list_text_stable(args@, args@.len() as int, mid, unbounds@);
            }
            text
        },
        Type::Tuple { elems } => {
            let mut text = String::from_str("#(");
            let list = list_to_string(elems, unbounds);
            text.append(list.as_str());
            text.append(")");
            text
        },
        Type::Var { id } => var_to_string(*id, unbounds),
    }
}

/// How `ty` is written: its variables are numbered in the order in which
/// they first come.
pub open spec fn shown(ty: Type) -> Seq<char> {
    type_text(ty, with_new(Seq::empty(), vars_of(ty)))
}

/// Writes a type.
pub fn type_to_string(ty: &Type) -> (text: String)
    requires
        lettered(*ty, Seq::empty()),
    ensures
        text@ == shown(*ty),
{
    let mut unbounds: Vec<u64> = Vec::new();
    type_to_string_unbonds(ty, &mut unbounds)
}

/// Writes the type of a function with the arguments `args` and the result
/// `return_type`.
pub fn fn_type_to_string(args: &Vec<Type>, return_type: &Type) -> (text: String)
    requires
        fn_lettered(args@, *return_type, Seq::empty()),
    ensures
        text@ == fn_text(
            args@,
            *return_type,
            with_new(
                Seq::empty(),
                vars_of_list(args@, args@.len() as int) + vars_of(*return_type),
            ),
        ),
{
    let mut unbounds: Vec<u64> = Vec::new();
    fn_type_to_string_unbounds(args, return_type, &mut unbounds)
}

/// Writes the type of a function, numbering its variables after those in
/// `unbounds`, which takes up the new ones.
pub fn fn_type_to_string_unbounds(
    args: &Vec<Type>,
    return_type: &Type,
    unbounds: &mut Vec<u64>,
) -> (text: String)
    requires
        fn_lettered(args@, *return_type, old(unbounds)@),
    ensures
        final(unbounds)@ == with_new(
            old(unbounds)@,
            vars_of_list(args@, args@.len() as int) + vars_of(*return_type),
        ),
        text@ == fn_text(args@, *return_type, final(unbounds)@),
{
    let ghost before = unbounds@;
    let ghost front = vars_of_list(args@, args@.len() as int);
    proof {
        lemma_lettered_front(before, front, vars_of(*return_type));
        lemma_lettered_back(before, front, vars_of(*return_type));
    }
    let mut text = String::from_str("fn(");
    let list = list_to_string(args, unbounds);
    let ghost mid = unbounds@;
    text.append(list.as_str());
    text.append(") -> ");
    let last = type_to_string_unbonds(return_type, unbounds);
    text.append(last.as_str());
    proof {
        lemma_with_new_concat(before, front, vars_of(*return_type));
        lemma_with_new_grows(before, front);
        lemma_with_new_grows(mid, vars_of(*return_type));
        lemma_list_text_stable(args@, args@.len() as int, mid, unbounds@);
    }
    text
}

proof fn lemma_lettered_stable(a: Seq<u64>, b: Seq<u64>, ids: Seq<u64>)
    requires
        a.is_prefix_of(b),
        holds_all(a, ids),
    ensures
        all_lettered(a, ids) == all_lettered(b, ids),
{
    assert forall|k: int| 0 <= k < ids.len() implies position(a, #[trigger] ids[k]) == position(
        b,
        ids[k],
    ) by {
        lemma_position_stable(a, b, ids[k]);
    }
}

proof fn lemma_lettered_concat(names: Seq<u64>, a: Seq<u64>, b: Seq<u64>)
    ensures
        all_lettered(names, a + b) == (all_lettered(names, a) && all_lettered(names, b)),
{
    if all_lettered(names, a + b) {
        assert forall|k: int| 0 <= k < a.len() implies has_letter(
            position(names, #[trigger] a[k]),
        ) by {
            assert((a + b)[k] == a[k]);
        }
        assert forall|k: int| 0 <= k < b.len() implies has_letter(
            position(names, #[trigger] b[k]),
        ) by {
            assert((a + b)[a.len() + k] == b[k]);
        }
    }
    if all_lettered(names, a) && all_lettered(names, b) {
        assert forall|k: int| 0 <= k < (a + b).len() implies has_letter(
            position(names, #[trigger] (a + b)[k]),
        ) by {
            if k < a.len() {
                assert((a + b)[k] == a[k]);
            } else {
                assert((a + b)[k] == b[k - a.len()]);
            }
        }
    }
}

fn list_has_letters(types: &Vec<Type>, unbounds: &mut Vec<u64>) -> (ok: bool)
    ensures
        final(unbounds)@ == with_new(old(unbounds)@, vars_of_list(types@, types@.len() as int)),
        ok == all_lettered(final(unbounds)@, vars_of_list(types@, types@.len() as int)),
    decreases types, 1nat,
{
    let mut ok = true;
    let n = types.len();
    let mut i: usize = 0;
    while i < n
        invariant
            i <= n,
            n == types@.len(),
            unbounds@ == with_new(old(unbounds)@, vars_of_list(types@, i as int)),
            holds_all(unbounds@, vars_of_list(types@, i as int)),
            ok == all_lettered(unbounds@, vars_of_list(types@, i as int)),
        decreases n - i,
    {
        let ghost before = unbounds@;
        let ghost seen = vars_of_list(types@, i as int);
        let ghost here = vars_of(types@[i as int]);
        let part = type_has_letters(&types[i], unbounds);
        proof {
            lemma_with_new_grows(before, here);
            lemma_with_new_concat(old(unbounds)@, seen, here);
            lemma_holds_more(before, unbounds@, seen, here);
            lemma_lettered_stable(before, unbounds@, seen);
            lemma_lettered_concat(unbounds@, seen, here);
        }
        ok = ok && part;
        i += 1;
    }
    ok
}

fn type_has_letters(ty: &Type, unbounds: &mut Vec<u64>) -> (ok: bool)
    ensures
        final(unbounds)@ == with_new(old(unbounds)@, vars_of(*ty)),
        ok == all_lettered(final(unbounds)@, vars_of(*ty)),
    decreases ty, 0nat,
{
    match ty {
        Type::Named { name, args } => list_has_letters(args, unbounds),
        Type::Fn { args, retrn } => {
            let ghost before = unbounds@;
            let ghost front = vars_of_list(args@, args@.len() as int);
            let ghost back = vars_of(**retrn);
            let first = list_has_letters(args, unbounds);
            let ghost mid = unbounds@;
            let second = type_has_letters(retrn, unbounds);
            proof {
                lemma_with_new_concat(before, front, back);
                lemma_with_new_grows(before, front);
                lemma_with_new_grows(mid, back);
                lemma_lettered_stable(mid, unbounds@, front);
                lemma_lettered_concat(unbounds@, front, back);
            }
            first && second
        },
        Type::Tuple { elems } => list_has_letters(elems, unbounds),
        Type::Var { id } => {
            let pos = find(unbounds, *id);
            proof {
                lemma_position_bounds(unbounds@, *id);
                assert(seq![*id].drop_last() =~= Seq::<u64>::empty());
                assert(with_new(unbounds@, seq![*id].drop_last()) == unbounds@);
            }
            if pos == unbounds.len() {
                unbounds.push(*id);
            }
            proof {
                lemma_position_bounds(unbounds@, *id);
                let now = position(unbounds@, *id);
                if pos == old(unbounds)@.len() {
                    assert(unbounds@[pos as int] == *id);
                    if now < pos {
                        assert(old(unbounds)@[now] == *id);
                    }
                }
                assert(now == pos);
                assert(vars_of(*ty)[0] == *id);
            }
            pos < 0xD800 - 97 || (0xE000 - 97 <= pos && pos <= 0x10FFFF - 97)
        },
    }
}

fn fn_has_letters(args: &Vec<Type>, return_type: &Type, unbounds: &mut Vec<u64>) -> (ok: bool)
    ensures
        final(unbounds)@ == with_new(
            old(unbounds)@,
            vars_of_list(args@, args@.len() as int) + vars_of(*return_type),
        ),
        ok == all_lettered(
            final(unbounds)@,
            vars_of_list(args@, args@.len() as int) + vars_of(*return_type),
        ),
{
    let ghost before = unbounds@;
    let ghost front = vars_of_list(args@, args@.len() as int);
    let ghost back = vars_of(*return_type);
    let first = list_has_letters(args, unbounds);
    let ghost mid = unbounds@;
    let second = type_has_letters(return_type, unbounds);
    proof {
        lemma_with_new_concat(before, front, back);
        lemma_with_new_grows(before, front);
        lemma_with_new_grows(mid, back);
        lemma_lettered_stable(mid, unbounds@, front);
        lemma_lettered_concat(unbounds@, front, back);
    }
    first && second
}

/// Whether `type_to_string` can write `ty`: whether each of its variables
/// has a letter.
pub fn can_show(ty: &Type) -> (ok: bool)
    ensures
        ok == lettered(*ty, Seq::empty()),
{
    let mut unbounds: Vec<u64> = Vec::new();
    type_has_letters(ty, &mut unbounds)
}

/// Whether `fn_type_to_string_unbounds` can write the type of a function
/// with these arguments and this result after the variables in `unbounds`.
pub fn can_show_fn(args: &Vec<Type>, return_type: &Type, unbounds: &Vec<u64>) -> (ok: bool)
    ensures
        ok == fn_lettered(args@, *return_type, unbounds@),
{
    let mut names = unbounds.clone();
    fn_has_letters(args, return_type, &mut names)
}

/// The place of the first of `names` that is `name`; their number where
/// there is none.
pub open spec fn name_place(names: Seq<Seq<char>>, name: Seq<char>) -> int
    decreases names.len(),
{
    if names.len() == 0 {
        0
    } else if names[0] == name {
        0
    } else {
        1 + name_place(names.drop_first(), name)
    }
}

/// The place of a name lies among the names or just behind them, and the
/// name in that place is the name.
pub proof fn lemma_name_place(names: Seq<Seq<char>>, name: Seq<char>)
    ensures
        0 <= name_place(names, name) <= names.len(),
        name_place(names, name) < names.len() ==> names[name_place(names, name)] == name,
    decreases names.len(),
{
    if names.len() > 0 && names[0] != name {
        lemma_name_place(names.drop_first(), name);
    }
}

/// The place of the first of the units `names` that is called `name`.
pub fn get_module(names: &Vec<String>, name: &str) -> (at: Option<usize>)
    ensures
        at == (if name_place(names.deep_view(), name@) < names@.len() {
            Some(name_place(names.deep_view(), name@) as usize)
        } else {
            None
        }),
{
    let mut i: usize = 0;
    assert(names.deep_view().skip(0) =~= names.deep_view());
    while i < names.len()
        invariant
            i <= names.len(),
            name_place(names.deep_view(), name@) == i + name_place(
                names.deep_view().skip(i as int),
                name@,
            ),
        decreases names.len() - i,
    {
        assert(names.deep_view().skip(i as int)[0] == names@[i as int]@);
        if same_text(names[i].as_str(), name) {
            return Some(i);
        }
        assert(names.deep_view().skip(i as int).drop_first() =~= names.deep_view().skip(i + 1));
        i += 1;
    }
    None
}

/// An import that was found in a file: the module that it names, and the
/// file in which that module is looked for.
#[derive(Debug)]
pub struct Import {
    pub module: String,
    pub path: String,
}

/// Whether the import of `module` is followed when the files of a program
/// are gathered: the modules of this program and of the standard library
/// come with it and are not looked for.
pub open spec fn is_followed(module: Seq<char>) -> bool {
    module != "sgleam"@ && !"sgleam/"@.is_prefix_of(module) && !"gleam/"@.is_prefix_of(module)
}

/// Tells whether the import of `module` is followed.
pub fn follows_import(module: &str) -> (follows: bool)
    ensures
        follows == is_followed(module@),
{
    !same_text(module, "sgleam") && !starts_with(module, "sgleam/") && !starts_with(
        module,
        "gleam/",
    )
}

/// The files of the first `upto` of `imports` that are followed, in order.
pub open spec fn followed_paths(imports: Seq<Import>, upto: int) -> Seq<Seq<char>>
    decreases upto,
{
    if upto <= 0 || upto > imports.len() {
        Seq::empty()
    } else if is_followed(imports[upto - 1].module@) {
        followed_paths(imports, upto - 1).push(imports[upto - 1].path@)
    } else {
        followed_paths(imports, upto - 1)
    }
}

/// The search for the files of a program: the files that were taken, in the
/// order in which they were taken, and those that wait to be looked at.
#[derive(Debug)]
pub struct ImportSearch {
    files: Vec<String>,
    pending: Vec<String>,
    next: usize,
}

/// An `ImportSearch` as a mathematical value.
pub struct ImportSearchView {
    /// The files that were taken.
    pub files: Seq<Seq<char>>,
    /// The files that wait, in the order in which they came.
    pub pending: Seq<Seq<char>>,
}

/// What the search takes next among the files that wait: the first of them
/// that was not taken before. The files before it are dropped; where none
/// is left, nothing is taken.
pub open spec fn taken_next(s: ImportSearchView) -> (Option<Seq<char>>, ImportSearchView)
    decreases s.pending.len(),
{
    if s.pending.len() == 0 {
        (None, s)
    } else if has_text(s.files, s.pending[0]) {
        taken_next(ImportSearchView { files: s.files, pending: s.pending.drop_first() })
    } else {
        (
            Some(s.pending[0]),
            ImportSearchView {
                files: s.files.push(s.pending[0]),
                pending: s.pending.drop_first(),
            },
        )
    }
}

/// Whether no file occurs twice in `files`.
pub open spec fn files_differ(files: Seq<Seq<char>>) -> bool {
    forall|i: int, j: int| 0 <= i < j < files.len() ==> files[i] != files[j]
}

/// The search never takes a file twice.
pub proof fn lemma_taken_once(s: ImportSearchView)
    requires
        files_differ(s.files),
    ensures
        files_differ(taken_next(s).1.files),
        taken_next(s).0 matches Some(path) ==> !has_text(s.files, path) && taken_next(s).1.files
            == s.files.push(path),
        taken_next(s).0 is None ==> taken_next(s).1.files == s.files && taken_next(
            s,
        ).1.pending.len() == 0,
    decreases s.pending.len(),
{
    if s.pending.len() == 0 {
    } else if has_text(s.files, s.pending[0]) {
        lemma_taken_once(ImportSearchView { files: s.files, pending: s.pending.drop_first() });
    } else {
    }
}

impl View for ImportSearch {
    type V = ImportSearchView;

    closed spec fn view(&self) -> ImportSearchView {
        ImportSearchView {
            files: self.files.deep_view(),
            pending: self.pending.deep_view().skip(self.next as int),
        }
    }
}

impl ImportSearch {
    /// Whether the search is in order.
    pub closed spec fn wf(&self) -> bool {
        self.next <= self.pending@.len()
    }

    /// Takes the next file to look at: the first of those that wait which
    /// was not taken before. The host reads it and comes back with its
    /// imports.
    pub fn next(&mut self) -> (path: Option<String>)
        requires
            old(self).wf(),
        ensures
            final(self).wf(),
            (path.deep_view(), final(self)@) == taken_next(old(self)@),
    {
        while self.next < self.pending.len()
            invariant
                self.wf(),
                taken_next(self@) == taken_next(old(self)@),
            decreases self.pending.len() - self.next,
        {
            let ghost before = self@;
            let at = self.next;
            assert(before.pending[0] == self.pending@[at as int]@);
            assert(before.pending.drop_first() =~= self.pending.deep_view().skip(at + 1));
            self.next = at + 1;
            if !crate::source::contains_name(&self.files, self.pending[at].as_str()) {
                let path = self.pending[at].clone();
                self.files.push(path.clone());
                assert(self@.files =~= before.files.push(path@));
                return Some(path);
            }
        }
        assert(self@.pending.len() == 0);
        None
    }

    /// Takes up the imports that were found in the file taken last: the
    /// files of those that are followed wait after those that wait already.
    pub fn add_imports(&mut self, imports: &Vec<Import>)
        requires
            old(self).wf(),
        ensures
            final(self).wf(),
            final(self)@ == (ImportSearchView {
                pending: old(self)@.pending + followed_paths(imports@, imports@.len() as int),
                ..old(self)@
            }),
    {
        let mut i: usize = 0;
        assert(self@.pending =~= old(self)@.pending + followed_paths(imports@, 0));
        while i < imports.len()
            invariant
                i <= imports.len(),
                self.wf(),
                self@.files == old(self)@.files,
                self@.pending == old(self)@.pending + followed_paths(imports@, i as int),
            decreases imports.len() - i,
        {
            if follows_import(imports[i].module.as_str()) {
                let ghost before = self@.pending;
                self.pending.push(imports[i].path.clone());
                assert(self@.pending =~= before.push(imports@[i as int].path@));
            }
            assert(self@.pending =~= old(self)@.pending + followed_paths(imports@, i + 1));
            i += 1;
        }
    }

    /// The files that were taken, in the order in which they were taken.
    pub fn files(self) -> (files: Vec<String>)
        ensures
            files.deep_view() == self@.files,
    {
        self.files
    }
}

/// Begins the search for the files of the program that `paths` name: those
/// files, and the files of the modules that they import, and so on. None is
/// taken twice.
pub fn find_imports(paths: Vec<String>) -> (search: ImportSearch)
    ensures
        search.wf(),
        search@ == (ImportSearchView { files: Seq::empty(), pending: paths.deep_view() }),
{
    let search = ImportSearch { files: Vec::new(), pending: paths, next: 0 };
    assert(search@.files =~= Seq::empty());
    assert(search@.pending =~= paths.deep_view());
    search
}

/// What a session reads of the unit that the user brought along.
#[derive(Debug)]
pub struct Module {
    pub name: String,
    /// The names of its public types.
    pub public_type_names: Vec<String>,
    /// The names of its public values.
    pub public_value_names: Vec<String>,
}

/// The words `n` times a blank.
pub open spec fn blanks(n: int) -> Seq<char> {
    Seq::new(
        if n > 0 {
            n as nat
        } else {
            0
        },
        |i: int| ' ',
    )
}

/// `prefix`, set to the right in eleven columns: with blanks before it where
/// it has fewer characters.
pub open spec fn padded_text(prefix: Seq<char>) -> Seq<char> {
    blanks(11 - prefix.len()) + prefix
}

/// A word and a text that are shown together on a line of the error stream:
/// the word in colour, to the right in eleven columns, and after a blank the
/// text.
#[derive(Debug)]
pub struct Report {
    pub prefix: String,
    pub text: String,
}

/// A `Report` as a mathematical value.
pub struct ReportView {
    pub prefix: Seq<char>,
    pub text: Seq<char>,
}

impl View for Report {
    type V = ReportView;

    open spec fn view(&self) -> ReportView {
        ReportView { prefix: self.prefix@, text: self.text@ }
    }
}

impl Report {
    /// The word of the report as it is shown: set to the right in eleven
    /// columns.
    pub fn padded_prefix(&self) -> (padded: String)
        ensures
            padded@ == padded_text(self@.prefix),
    {
        let n = self.prefix.as_str().unicode_len();
        let mut padded = String::new();
        let mut i: usize = n;
        while i < 11
            invariant
                n <= i,
                i <= 11 || i == n,
                padded@ == blanks(i - n),
            decreases 11 - i,
        {
            padded.push(' ');
            assert(padded@ =~= blanks(i + 1 - n));
            i += 1;
        }
        assert(padded@ =~= blanks(11 - n));
        padded.append(self.prefix.as_str());
        padded
    }

    /// The line of the report without colour.
    pub fn line(&self) -> (line: String)
        ensures
            line@ == padded_text(self@.prefix) + " "@ + self@.text + "\n"@,
    {
        let mut line = self.padded_prefix();
        line.append(" ");
        line.append(self.text.as_str());
        line.append("\n");
        line
    }
}

fn report(prefix: &str, text: String) -> (r: Report)
    ensures
        r@ == (ReportView { prefix: prefix@, text: text@ }),
{
    Report { prefix: String::from_str(prefix), text }
}

fn in_time(elapsed: &str) -> (text: String)
    ensures
        text@ == "in "@ + elapsed@,
{
    let mut text = String::from_str("in ");
    text.append(elapsed);
    text
}

fn two_words(first: &str, second: &str) -> (text: String)
    ensures
        text@ == first@ + " "@ + second@,
{
    let mut text = String::from_str(first);
    text.append(" ");
    text.append(second);
    text
}

/// What is reported of the compiler's progress.
#[derive(Debug, Default, Clone, Copy)]
pub struct Reporter;

impl Reporter {
    /// A reporter.
    pub fn new() -> (reporter: Self) {
        Self
    }

    /// A package was compiled in the time that `elapsed` names.
    pub fn compiled_package(&self, elapsed: &str) -> (r: Report)
        ensures
            r@ == (ReportView { prefix: "Compiled"@, text: "in "@ + elapsed@ }),
    {
        print_compiled(elapsed)
    }

    /// The package `name` is being compiled.
    pub fn compiling_package(&self, name: &str) -> (r: Report)
        ensures
            r@ == (ReportView { prefix: "Compiling"@, text: name@ }),
    {
        print_compiling(name)
    }

    /// A package was checked in the time that `elapsed` names.
    pub fn checked_package(&self, elapsed: &str) -> (r: Report)
        ensures
            r@ == (ReportView { prefix: "Checked"@, text: "in "@ + elapsed@ }),
    {
        print_checked(elapsed)
    }

    /// The package `name` is being checked.
    pub fn checking_package(&self, name: &str) -> (r: Report)
        ensures
            r@ == (ReportView { prefix: "Checking"@, text: name@ }),
    {
        print_checking(name)
    }

    /// The package `name` is being downloaded.
    pub fn downloading_package(&self, name: &str) -> (r: Report)
        ensures
            r@ == (ReportView { prefix: "Downloading"@, text: name@ }),
    {
        print_downloading(name)
    }

    /// `count` packages were downloaded in the time that `elapsed` names.
    pub fn packages_downloaded(&self, elapsed: &str, count: usize) -> (r: Report)
        ensures
            r@ == (ReportView { prefix: "Downloaded"@, text: downloaded_text(elapsed@, count) }),
    {
        print_packages_downloaded(elapsed, count)
    }

    /// The versions of the packages are being chosen.
    pub fn resolving_package_versions(&self) -> (r: Report)
        ensures
            r@ == (ReportView { prefix: "Resolving"@, text: "versions"@ }),
    {
        print_resolving_versions()
    }

    /// `name` is being run.
    pub fn running(&self, name: &str) -> (r: Report)
        ensures
            r@ == (ReportView { prefix: "Running"@, text: name@ }),
    {
        print_running(name)
    }

    /// Another process holds the build directory.
    pub fn waiting_for_build_directory_lock(&self) -> (r: Report)
        ensures
            r@ == (ReportView { prefix: "Waiting"@, text: "for build directory lock"@ }),
    {
        print_waiting_for_build_directory_lock()
    }
}

/// The report that something was published in the time that `elapsed`
/// names.
pub fn print_published(elapsed: &str) -> (r: Report)
    ensures
        r@ == (ReportView { prefix: "Published"@, text: "in "@ + elapsed@ }),
{
    report("Published", in_time(elapsed))
}

/// The report that the version `version` of `package` was retired.
pub fn print_retired(package: &str, version: &str) -> (r: Report)
    ensures
        r@ == (ReportView { prefix: "Retired"@, text: package@ + " "@ + version@ }),
{
    report("Retired", two_words(package, version))
}

/// The report that the version `version` of `package` is no longer retired.
pub fn print_unretired(package: &str, version: &str) -> (r: Report)
    ensures
        r@ == (ReportView { prefix: "Unretired"@, text: package@ + " "@ + version@ }),
{
    report("Unretired", two_words(package, version))
}

/// The report that the documentation is being published.
pub fn print_publishing_documentation() -> (r: Report)
    ensures
        r@ == (ReportView { prefix: "Publishing"@, text: "documentation"@ }),
{
    report("Publishing", String::from_str("documentation"))
}

/// The report that `text` is being downloaded.
pub fn print_downloading(text: &str) -> (r: Report)
    ensures
        r@ == (ReportView { prefix: "Downloading"@, text: text@ }),
{
    report("Downloading", String::from_str(text))
}

/// The report that another process holds the build directory.
pub fn print_waiting_for_build_directory_lock() -> (r: Report)
    ensures
        r@ == (ReportView { prefix: "Waiting"@, text: "for build directory lock"@ }),
{
    report("Waiting", String::from_str("for build directory lock"))
}

/// The report that the versions of the packages are being chosen.
pub fn print_resolving_versions() -> (r: Report)
    ensures
        r@ == (ReportView { prefix: "Resolving"@, text: "versions"@ }),
{
    report("Resolving", String::from_str("versions"))
}

/// The report that `text` is being compiled.
pub fn print_compiling(text: &str) -> (r: Report)
    ensures
        r@ == (ReportView { prefix: "Compiling"@, text: text@ }),
{
    report("Compiling", String::from_str(text))
}

/// The report that `text` is being checked.
pub fn print_checking(text: &str) -> (r: Report)
    ensures
        r@ == (ReportView { prefix: "Checking"@, text: text@ }),
{
    report("Checking", String::from_str(text))
}

/// The report that the compiling took the time that `elapsed` names.
pub fn print_compiled(elapsed: &str) -> (r: Report)
    ensures
        r@ == (ReportView { prefix: "Compiled"@, text: "in "@ + elapsed@ }),
{
    report("Compiled", in_time(elapsed))
}

/// The report that the checking took the time that `elapsed` names.
pub fn print_checked(elapsed: &str) -> (r: Report)
    ensures
        r@ == (ReportView { prefix: "Checked"@, text: "in "@ + elapsed@ }),
{
    report("Checked", in_time(elapsed))
}

/// The report that `text` is being run.
pub fn print_running(text: &str) -> (r: Report)
    ensures
        r@ == (ReportView { prefix: "Running"@, text: text@ }),
{
    report("Running", String::from_str(text))
}

/// How many packages were downloaded, and in what time.
pub open spec fn downloaded_text(elapsed: Seq<char>, count: usize) -> Seq<char> {
    if count == 1 {
        "1 package in "@ + elapsed
    } else {
        decimal_text(count as nat) + " packages in "@ + elapsed
    }
}

/// The report that `count` packages were downloaded in the time that
/// `elapsed` names.
pub fn print_packages_downloaded(elapsed: &str, count: usize) -> (r: Report)
    ensures
        r@ == (ReportView { prefix: "Downloaded"@, text: downloaded_text(elapsed@, count) }),
{
    let mut text = String::new();
    if count == 1 {
        text.append("1 package in ");
        assert(text@ =~= "1 package in "@);
    } else {
        push_decimal(&mut text, count);
        text.append(" packages in ");
        assert(text@ =~= decimal_text(count as nat) + " packages in "@);
    }
    text.append(elapsed);
    report("Downloaded", text)
}

/// The kinds of warning that the type checker gives, as far as a session
/// tells them apart.
#[derive(Debug, Clone, Copy, PartialEq, Eq, Structural)]
pub enum TypeWarning {
    Todo,
    UnreachableCodeAfterPanic,
    UnusedConstructor,
    UnusedImportedModule,
    UnusedImportedModuleAlias,
    UnusedImportedValue,
    UnusedPrivateFunction,
    UnusedPrivateModuleConstant,
    UnusedType,
    UnusedVariable,
    /// Any other warning of the type checker.
    Other,
}

/// The kinds of warning that the compiler gives.
#[derive(Debug, Clone, Copy, PartialEq, Eq, Structural)]
pub enum Warning {
    Type(TypeWarning),
    /// A warning that does not come from the type checker.
    Other,
}

/// Decides which warnings are shown.
#[derive(Debug, Clone, Copy)]
pub struct ConsoleWarningEmitter {
    repl: bool,
}

impl ConsoleWarningEmitter {
    /// Whether the warnings of a session are decided on.
    pub closed spec fn in_repl(&self) -> bool {
        self.repl
    }

    /// An emitter for a session, where `repl` holds, else for a file.
    pub fn with_repl(repl: bool) -> (emitter: ConsoleWarningEmitter)
        ensures
            emitter.in_repl() == repl,
    {
        ConsoleWarningEmitter { repl }
    }

    /// Whether `warning` is shown. In a session the warnings about what is
    /// left unfinished or unused are not: every program of a session holds
    /// much that the line at hand does not use.
    pub open spec fn shows(&self, warning: Warning) -> bool {
        match warning {
            Warning::Type(TypeWarning::Other) => true,
            Warning::Type(_) => !self.in_repl(),
            Warning::Other => true,
        }
    }

    /// Whether `warning` is to be shown.
    pub fn emit_warning(&self, warning: Warning) -> (shown: bool)
        ensures
            shown == self.shows(warning),
    {
        if self.repl {
            match warning {
                Warning::Type(TypeWarning::Other) => true,
                Warning::Type(_) => false,
                Warning::Other => true,
            }
        } else {
            true
        }
    }
}

} // verus!
