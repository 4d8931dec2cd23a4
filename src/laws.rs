use vstd::prelude::*;
use crate::error::CodegenError;
use crate::element::kind_of_code;
use crate::generator::{declaration_of, lemma_source_prefix_err, source_of, TensorProto};
use crate::ident::is_identifier_text;
use crate::shape::array_type_text;
use crate::text::decimal_text;

verus! {

/// A rank-one shape `[n]` declares the array type `[T; n]`.
pub proof fn lemma_rank_one_declaration(n: i64, elem: Seq<char>)
    requires
        n > 0,
    ensures
        array_type_text(seq![n], elem) == seq!['['] + elem + seq![';', ' '] + decimal_text(n as int)
            + seq![']'],
{
    assert(seq![n].drop_first() =~= Seq::<i64>::empty());
    assert(array_type_text(Seq::<i64>::empty(), elem) == elem);
    assert(seq![n][0] == n);
    assert(array_type_text(seq![n], elem) =~= seq!['['] + elem + seq![';', ' '] + decimal_text(
        n as int,
    ) + seq![']']);
}

/// Two tensors that hold the same values field by field.
pub open spec fn same_tensor(a: TensorProto, b: TensorProto) -> bool {
    &&& a.name.deep_view() == b.name.deep_view()
    &&& a.data_type == b.data_type
    &&& a.dims@ == b.dims@
    &&& a.float_data.deep_view() == b.float_data.deep_view()
    &&& a.int64_data@ == b.int64_data@
}

/// The declaration text of a tensor, empty when it has none.
pub open spec fn declaration_text(t: TensorProto) -> Seq<char> {
    match declaration_of(t) {
        Ok(d) => d,
        Err(_) => Seq::empty(),
    }
}

/// The declarations written one after another, each followed by a line break.
pub open spec fn lines_text(ds: Seq<Seq<char>>) -> Seq<char>
    decreases ds.len(),
{
    if ds.len() == 0 {
        Seq::empty()
    } else {
        lines_text(ds.drop_last()) + ds.last() + "\n"@
    }
}

proof fn lemma_same_declaration(a: TensorProto, b: TensorProto)
    requires
        same_tensor(a, b),
    ensures
        declaration_of(a) == declaration_of(b),
{
    assert(a.float_data.deep_view().len() == b.float_data.deep_view().len());
}

/// Generation is a function of the tensors' values: tensor sequences that hold
/// the same values give the same source, or fail at the same tensor the same way.
pub proof fn lemma_generation_deterministic(a: Seq<TensorProto>, b: Seq<TensorProto>)
    requires
        a.len() == b.len(),
        forall|i: int| 0 <= i < a.len() ==> same_tensor(#[trigger] a[i], b[i]),
    ensures
        source_of(a) == source_of(b),
    decreases a.len(),
{
    if a.len() > 0 {
        let n = a.len() - 1;
        assert forall|i: int| 0 <= i < a.drop_last().len() implies same_tensor(
            #[trigger] a.drop_last()[i],
            b.drop_last()[i],
        ) by {
            assert(same_tensor(a[i], b[i]));
        }
        lemma_generation_deterministic(a.drop_last(), b.drop_last());
        assert(same_tensor(a[n], b[n]));
        lemma_same_declaration(a.last(), b.last());
    }
}

/// Generation succeeds exactly when every tensor has a declaration, and then
/// its source is those declarations in order, one per line.
pub proof fn lemma_source_is_lines(ts: Seq<TensorProto>)
    ensures
        source_of(ts) is Ok <==> forall|i: int| 0 <= i < ts.len() ==> (#[trigger] declaration_of(
            ts[i],
        )) is Ok,
        source_of(ts) is Ok ==> source_of(ts) == Ok::<Seq<char>, (int, CodegenError)>(
            lines_text(Seq::new(ts.len(), |i: int| declaration_text(ts[i]))),
        ),
    decreases ts.len(),
{
    if ts.len() > 0 {
        let init = ts.drop_last();
        lemma_source_is_lines(init);
        let n = ts.len() - 1;
        let ds = Seq::new(ts.len(), |i: int| declaration_text(ts[i]));
        assert(ds.drop_last() =~= Seq::new(init.len(), |i: int| declaration_text(init[i])));
        if source_of(ts) is Ok {
            assert forall|i: int| 0 <= i < ts.len() implies (#[trigger] declaration_of(
                ts[i],
            )) is Ok by {
                if i < n {
                    assert(declaration_of(init[i]) is Ok);
                }
            }
        }
        if forall|i: int| 0 <= i < ts.len() ==> (#[trigger] declaration_of(ts[i])) is Ok {
            assert forall|i: int| 0 <= i < init.len() implies (#[trigger] declaration_of(
                init[i],
            )) is Ok by {
                assert(declaration_of(ts[i]) is Ok);
            }
            assert(declaration_of(ts[n]) is Ok);
        }
    }
}

/// Some position of `perm` holds `j`.
pub open spec fn takes_from(perm: Seq<int>, j: int) -> bool {
    exists|i: int| 0 <= i < perm.len() && #[trigger] perm[i] == j
}

/// Permuting the tensors permutes their declarations and changes nothing
/// else: the permuted sequence succeeds exactly when the original does, and
/// then its source holds the original's declarations, unchanged, in the new order.
pub proof fn lemma_order_preserved(a: Seq<TensorProto>, b: Seq<TensorProto>, perm: Seq<int>)
    requires
        a.len() == b.len(),
        perm.len() == a.len(),
        // `perm` is a permutation of the positions of `a`, and `b` is `a` in its order.
        forall|i: int| 0 <= i < perm.len() ==> 0 <= #[trigger] perm[i] < a.len(),
        forall|j: int| 0 <= j < a.len() ==> #[trigger] takes_from(perm, j),
        forall|i: int| 0 <= i < b.len() ==> #[trigger] b[i] == a[perm[i]],
    ensures
        source_of(a) is Ok <==> source_of(b) is Ok,
        source_of(a) is Ok ==> source_of(a) == Ok::<Seq<char>, (int, CodegenError)>(
            lines_text(Seq::new(a.len(), |i: int| declaration_text(a[i]))),
        ),
        source_of(b) is Ok ==> source_of(b) == Ok::<Seq<char>, (int, CodegenError)>(
            lines_text(Seq::new(a.len(), |i: int| declaration_text(a[perm[i]]))),
        ),
{
    lemma_source_is_lines(a);
    lemma_source_is_lines(b);
    if source_of(a) is Ok {
        assert forall|i: int| 0 <= i < b.len() implies (#[trigger] declaration_of(b[i])) is Ok by {
            assert(b[i] == a[perm[i]]);
            assert(declaration_of(a[perm[i]]) is Ok);
        }
    }
    if source_of(b) is Ok {
        assert forall|j: int| 0 <= j < a.len() implies (#[trigger] declaration_of(a[j])) is Ok by {
            assert(takes_from(perm, j));
            let i = choose|i: int| 0 <= i < perm.len() && #[trigger] perm[i] == j;
            assert(b[i] == a[perm[i]]);
            assert(declaration_of(b[i]) is Ok);
        }
    }
    assert(Seq::new(b.len(), |i: int| declaration_text(b[i])) =~= Seq::new(
        a.len(),
        |i: int| declaration_text(a[perm[i]]),
    ));
}

/// When every tensor before position `i` has a declaration and tensor `i`
/// fails with `e`, generation stops at `i` with `e`.
pub proof fn lemma_first_failure(ts: Seq<TensorProto>, i: int, e: CodegenError)
    requires
        0 <= i < ts.len(),
        forall|j: int| 0 <= j < i ==> (#[trigger] declaration_of(ts[j])) is Ok,
        declaration_of(ts[i]) == Err::<Seq<char>, CodegenError>(e),
    ensures
        source_of(ts) == Err::<Seq<char>, (int, CodegenError)>((i, e)),
{
    let init = ts.take(i);
    assert forall|j: int| 0 <= j < init.len() implies (#[trigger] declaration_of(init[j])) is Ok by {
        assert(declaration_of(ts[j]) is Ok);
    }
    lemma_source_is_lines(init);
    assert(ts.take(i + 1).drop_last() =~= init);
    assert(ts.take(i + 1).last() == ts[i]);
    lemma_source_prefix_err(ts, i + 1);
}

/// A BOOL tensor with a usable name and a non-empty shape has no literal:
/// generation fails at it with `UnsupportedLiteralType` once every tensor
/// before it has a declaration.
pub proof fn lemma_bool_tensor_fails(ts: Seq<TensorProto>, i: int)
    requires
        0 <= i < ts.len(),
        forall|j: int| 0 <= j < i ==> (#[trigger] declaration_of(ts[j])) is Ok,
        ts[i].name matches Some(n) && is_identifier_text(n@),
        ts[i].data_type == Some(9i32),
        ts[i].dims@.len() > 0,
    ensures
        source_of(ts) == Err::<Seq<char>, (int, CodegenError)>(
            (i, CodegenError::UnsupportedLiteralType),
        ),
{
    lemma_first_failure(ts, i, CodegenError::UnsupportedLiteralType);
}

/// A tensor with a usable name, a known element type and an empty shape
/// fails with `EmptyShapeError`, whatever its element type: generation stops
/// at it once every tensor before it has a declaration.
pub proof fn lemma_empty_shape_fails(ts: Seq<TensorProto>, i: int)
    requires
        0 <= i < ts.len(),
        forall|j: int| 0 <= j < i ==> (#[trigger] declaration_of(ts[j])) is Ok,
        ts[i].name matches Some(n) && is_identifier_text(n@),
        ts[i].data_type matches Some(c) && kind_of_code(c as int) is Some,
        ts[i].dims@.len() == 0,
    ensures
        source_of(ts) == Err::<Seq<char>, (int, CodegenError)>((i, CodegenError::EmptyShapeError)),
{
    lemma_first_failure(ts, i, CodegenError::EmptyShapeError);
}

} // verus!
