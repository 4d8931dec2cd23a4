use vstd::prelude::*;
use vstd::string::StringExecFns;
use crate::error::CodegenError;
use crate::text::{bracketed, decimal_text, push_decimal};

verus! {

/// The number of elements of a tensor with these dimensions.
pub open spec fn dims_product(dims: Seq<i64>) -> int
    decreases dims.len(),
{
    if dims.len() == 0 {
        1
    } else {
        dims[0] * dims_product(dims.drop_first())
    }
}

/// No dimension is negative.
pub open spec fn dims_nonneg(dims: Seq<i64>) -> bool {
    forall|i: int| 0 <= i < dims.len() ==> dims[i] >= 0
}

/// The nested array type of a tensor: the first dimension is the outermost
/// repeat count, the last one the innermost, as in the literal.
pub open spec fn array_type_text(dims: Seq<i64>, elem: Seq<char>) -> Seq<char>
    decreases dims.len(),
{
    if dims.len() == 0 {
        elem
    } else {
        bracketed(array_type_text(dims.drop_first(), elem) + seq![';', ' '] + decimal_text(
            dims[0] as int,
        ))
    }
}

pub proof fn lemma_product_nonneg(dims: Seq<i64>)
    requires
        dims_nonneg(dims),
    ensures
        dims_product(dims) >= 0,
    decreases dims.len(),
{
    if dims.len() > 0 {
        lemma_product_nonneg(dims.drop_first());
        let p = dims_product(dims.drop_first());
        let d = dims[0] as int;
        assert(d * p >= 0) by (nonlinear_arith)
            requires
                d >= 0,
                p >= 0,
        ;
    }
}

pub proof fn lemma_product_zero(dims: Seq<i64>, k: int)
    requires
        0 <= k < dims.len(),
        dims[k] == 0,
    ensures
        dims_product(dims) == 0,
    decreases dims.len(),
{
    if k > 0 {
        lemma_product_zero(dims.drop_first(), k - 1);
    }
}

/// With no dimension below one, dropping leading dimensions never grows the product.
pub proof fn lemma_product_suffix_le(dims: Seq<i64>, j: int)
    requires
        0 <= j <= dims.len(),
        forall|i: int| 0 <= i < dims.len() ==> dims[i] >= 1,
    ensures
        1 <= dims_product(dims.subrange(j, dims.len() as int)) <= dims_product(dims),
    decreases dims.len(),
{
    assert(dims.subrange(0, dims.len() as int) =~= dims);
    if dims.len() > 0 {
        let rest = dims.drop_first();
        if j > 0 {
            lemma_product_suffix_le(rest, j - 1);
            assert(rest.subrange(j - 1, rest.len() as int) =~= dims.subrange(j, dims.len() as int));
        } else {
            lemma_product_suffix_le(rest, 0);
            assert(rest.subrange(0, rest.len() as int) =~= rest);
        }
        let p = dims_product(rest);
        let d = dims[0] as int;
        assert(p <= d * p) by (nonlinear_arith)
            requires
                d >= 1,
                p >= 1,
        ;
    }
}

/// The product of `dims[from..]`, or `None` when it does not fit in a `usize`.
pub fn checked_product(dims: &Vec<i64>, from: usize) -> (r: Option<usize>)
    requires
        from <= dims.len(),
        dims_nonneg(dims@),
    ensures
        match r {
            Some(p) => p as int == dims_product(dims@.subrange(from as int, dims.len() as int)),
            None => dims_product(dims@.subrange(from as int, dims.len() as int)) > usize::MAX,
        },
{
    let n = dims.len();
    let ghost sub = dims@.subrange(from as int, n as int);
    let mut k: usize = from;
    while k < n
        invariant
            from <= k <= n,
            n == dims.len(),
            sub == dims@.subrange(from as int, n as int),
            forall|i: int| from <= i < k ==> dims@[i] != 0,
        decreases n - k,
    {
        if dims[k] == 0 {
            proof {
                lemma_product_zero(sub, k - from);
            }
            return Some(0);
        }
        k = k + 1;
    }
    let mut p: usize = 1;
    let mut j: usize = n;
    while j > from
        invariant
            from <= j <= n,
            n == dims.len(),
            sub == dims@.subrange(from as int, n as int),
            dims_nonneg(dims@),
            forall|i: int| from <= i < n ==> dims@[i] != 0,
            p as int == dims_product(dims@.subrange(j as int, n as int)),
        decreases j,
    {
        let v = dims[j - 1];
        proof {
            assert(dims@.subrange(j - 1, n as int).drop_first() =~= dims@.subrange(j as int, n as int));
            assert(dims_product(dims@.subrange(j - 1, n as int)) == (v as int) * (p as int));
            assert(forall|i: int| 0 <= i < sub.len() ==> sub[i] >= 1);
            lemma_product_suffix_le(sub, j - 1 - from);
            lemma_product_suffix_le(sub, j - from);
            assert(sub.subrange(j - 1 - from, sub.len() as int) =~= dims@.subrange(j - 1, n as int));
            assert(sub.subrange(j - from, sub.len() as int) =~= dims@.subrange(j as int, n as int));
            assert((v as int) * (p as int) == (p as int) * (v as int)) by (nonlinear_arith);
            assert((v as int) <= (v as int) * (p as int)) by (nonlinear_arith)
                requires
                    v >= 1,
                    p >= 1,
            ;
        }
        if v as u128 > usize::MAX as u128 {
            return None;
        }
        let d = v as usize;
        match p.checked_mul(d) {
            Some(q) => {
                p = q;
            },
            None => {
                return None;
            },
        }
        j = j - 1;
    }
    Some(p)
}

fn push_type(dims: &Vec<i64>, depth: usize, elem: &str, out: &mut String)
    requires
        depth <= dims.len(),
    ensures
        final(out)@ == old(out)@ + array_type_text(
            dims@.subrange(depth as int, dims.len() as int),
            elem@,
        ),
    decreases dims.len() - depth,
{
    let ghost sub = dims@.subrange(depth as int, dims.len() as int);
    if depth == dims.len() {
        out.append(elem);
        assert(final(out)@ == old(out)@ + array_type_text(sub, elem@));
    } else {
        proof {
            reveal_strlit("[");
            reveal_strlit("; ");
            reveal_strlit("]");
        }
        out.append("[");
        push_type(dims, depth + 1, elem, out);
        out.append("; ");
        push_decimal(dims[depth], out);
        out.append("]");
        assert(sub.drop_first() =~= dims@.subrange(depth + 1, dims.len() as int));
        assert(final(out)@ =~= old(out)@ + array_type_text(sub, elem@));
    }
}

/// The Rust array type of a tensor with the given dimensions and element type,
/// such as `[[f32; 4]; 2]` for dimensions `[2, 4]`. Fails on an empty shape.
pub fn generate_array_declaration_string(dimensions: &Vec<i64>, datatype: &str) -> (r: Result<
    String,
    CodegenError,
>)
    ensures
        dimensions@.len() == 0 ==> r == Err::<String, CodegenError>(CodegenError::EmptyShapeError),
        dimensions@.len() > 0 ==> (r matches Ok(s) && s@ == array_type_text(dimensions@, datatype@)),
{
    if dimensions.len() == 0 {
        return Err(CodegenError::EmptyShapeError);
    }
    let mut out = String::new();
    push_type(dimensions, 0, datatype, &mut out);
    assert(dimensions@.subrange(0, dimensions.len() as int) =~= dimensions@);
    assert(out@ =~= array_type_text(dimensions@, datatype@));
    Ok(out)
}

} // verus!
