use vstd::prelude::*;
use vstd::string::StringExecFns;
use crate::error::CodegenError;
use crate::shape::{checked_product, dims_nonneg, dims_product, lemma_product_nonneg};
use crate::text::{bracketed, decimal_text, join, decimal_string};

verus! {

/// The nested array literal of a tensor, in row-major order: the first
/// dimension is the outermost level, and each of its entries is the literal
/// of the next block of `product(dims[1..])` consecutive cells.
pub open spec fn literal_text(dims: Seq<i64>, cells: Seq<Seq<char>>) -> Seq<char>
    decreases dims.len(), 1nat,
{
    if dims.len() <= 1 {
        bracketed(join(cells))
    } else {
        bracketed(join(block_literals(dims.drop_first(), dims[0] as nat, cells)))
    }
}

/// The literals of `count` consecutive blocks of cells, each block shaped by `inner`.
pub open spec fn block_literals(inner: Seq<i64>, count: nat, cells: Seq<Seq<char>>) -> Seq<
    Seq<char>,
>
    decreases inner.len() + 1, 0nat,
{
    let b = dims_product(inner);
    Seq::new(count, |i: int| literal_text(inner, cells.subrange(i * b, i * b + b)))
}

/// The error, if any, that a shape and a data length give when a literal is built.
pub open spec fn shape_error(dims: Seq<i64>, len: int) -> Option<CodegenError> {
    if dims.len() == 0 {
        Some(CodegenError::EmptyShapeError)
    } else if !dims_nonneg(dims) || dims_product(dims) != len {
        Some(CodegenError::DataShapeMismatch)
    } else {
        None
    }
}

/// The decimal text of each integer.
pub open spec fn int_cells(data: Seq<i64>) -> Seq<Seq<char>> {
    Seq::new(data.len(), |i: int| decimal_text(data[i] as int))
}

proof fn lemma_join_step(s: Seq<Seq<char>>, i: int)
    requires
        0 <= i < s.len(),
    ensures
        i == 0 ==> join(s.take(i + 1)) == s[0],
        i > 0 ==> join(s.take(i + 1)) == join(s.take(i)) + seq![',', ' '] + s[i],
{
    assert(s.take(i + 1).drop_last() =~= s.take(i));
    assert(s.take(i + 1).last() == s[i]);
}

proof fn lemma_block_bounds(i: int, count: int, b: int)
    requires
        0 <= i < count,
        b >= 0,
    ensures
        0 <= i * b,
        i * b + b <= count * b,
{
    assert(0 <= i * b) by (nonlinear_arith)
        requires
            0 <= i,
            b >= 0,
    ;
    assert(i * b + b <= count * b) by (nonlinear_arith)
        requires
            i < count,
            b >= 0,
    ;
}

fn push_literal(dims: &Vec<i64>, depth: usize, cells: &Vec<String>, start: usize, out: &mut String)
    requires
        depth < dims.len(),
        dims_nonneg(dims@),
        start + dims_product(dims@.subrange(depth as int, dims.len() as int)) <= cells.len(),
    ensures
        final(out)@ == old(out)@ + literal_text(
            dims@.subrange(depth as int, dims.len() as int),
            cells.deep_view().subrange(
                start as int,
                start + dims_product(dims@.subrange(depth as int, dims.len() as int)),
            ),
        ),
    decreases dims.len() - depth,
{
    let n = dims.len();
    let ghost sub = dims@.subrange(depth as int, n as int);
    let ghost rest = dims@.subrange(depth + 1, n as int);
    let ghost prod = dims_product(sub);
    let ghost all = cells.deep_view();
    let ghost here = all.subrange(start as int, start + prod);
    proof {
        reveal_strlit("[");
        reveal_strlit("]");
        reveal_strlit(", ");
        assert(sub.drop_first() =~= rest);
        assert(dims_nonneg(rest));
        assert(dims_nonneg(sub));
        lemma_product_nonneg(rest);
        lemma_product_nonneg(sub);
        assert(sub[0] == dims@[depth as int]);
        assert(prod == sub[0] * dims_product(rest));
    }
    out.append("[");
    let ghost opened = out@;
    let count = dims[depth];
    if depth + 1 < n {
        let ghost b = dims_product(rest);
        let ghost parts = block_literals(rest, count as nat, here);
        proof {
            assert(sub[0] == count);
            assert(prod == count * b);
        }
        let mut block: usize = 0;
        if count > 0 {
            proof {
                assert(b <= prod) by (nonlinear_arith)
                    requires
                        prod == count * b,
                        count >= 1,
                        b >= 0,
                ;
            }
            match checked_product(dims, depth + 1) {
                Some(p) => {
                    block = p;
                },
                None => {},
            }
        }
        let total = count as u64;
        let mut i: u64 = 0;
        while i < total
            invariant
                n == dims.len(),
                depth + 1 < n,
                dims_nonneg(dims@),
                sub == dims@.subrange(depth as int, n as int),
                rest == dims@.subrange(depth + 1, n as int),
                b == dims_product(rest),
                b >= 0,
                count == dims@[depth as int],
                total == count,
                prod == count * b,
                start + prod <= cells.len(),
                all == cells.deep_view(),
                here == all.subrange(start as int, start + prod),
                parts == block_literals(rest, count as nat, here),
                count > 0 ==> block == b,
                0 <= i <= total,
                out@ == opened + join(parts.take(i as int)),
            decreases total - i,
        {
            proof {
                lemma_block_bounds(i as int, count as int, b);
                assert(parts.take(i + 1).drop_last() =~= parts.take(i as int));
                assert(parts.take(i + 1).last() == parts[i as int]);
            }
            proof {
                reveal_strlit(", ");
            }
            if i > 0 {
                out.append(", ");
            }
            let ghost before = out@;
            let offset: usize = if block == 0 {
                start
            } else {
                proof {
                    assert(count <= prod) by (nonlinear_arith)
                        requires
                            prod == count * b,
                            b >= 1,
                            count >= 0,
                    ;
                    assert((i as int) * (block as int) + (block as int) <= prod);
                }
                start + (i as usize) * block
            };
            proof {
                assert(offset == start + i * b) by (nonlinear_arith)
                    requires
                        block == b,
                        block == 0 ==> offset == start,
                        block != 0 ==> offset == start + i * block,
                ;
            }
            push_literal(dims, depth + 1, cells, offset, out);
            proof {
                assert(all.subrange(offset as int, offset + b) =~= here.subrange(
                    i * b,
                    i * b + b,
                ));
                assert(out@ == before + parts[i as int]);
                lemma_join_step(parts, i as int);
                assert(out@ =~= opened + join(parts.take(i + 1)));
            }
            i = i + 1;
        }
        proof {
            assert(parts.take(count as int) =~= parts);
            assert(sub.len() >= 2);
            assert(literal_text(sub, here) == bracketed(join(parts)));
        }
    } else {
        proof {
            assert(rest =~= Seq::<i64>::empty());
            assert(sub[0] == count);
            assert(dims_product(rest) == 1);
            assert(prod == count);
        }
        let total = count as usize;
        let mut i: usize = 0;
        while i < total
            invariant
                n == dims.len(),
                total == count,
                prod == count,
                start + prod <= cells.len(),
                all == cells.deep_view(),
                here == all.subrange(start as int, start + prod),
                0 <= i <= total,
                out@ == opened + join(here.take(i as int)),
            decreases total - i,
        {
            proof {
                assert(here.take(i + 1).drop_last() =~= here.take(i as int));
            }
            proof {
                reveal_strlit(", ");
            }
            if i > 0 {
                out.append(", ");
            }
            let ghost before = out@;
            out.append(cells[start + i].as_str());
            proof {
                assert(out@ == before + here[i as int]);
                lemma_join_step(here, i as int);
                assert(out@ =~= opened + join(here.take(i + 1)));
            }
            i = i + 1;
        }
        proof {
            assert(here.take(count as int) =~= here);
            assert(sub.len() == 1);
        }
    }
    out.append("]");
    assert(final(out)@ =~= old(out)@ + literal_text(sub, here));
}

/// The nested array literal of a tensor whose cells, in row-major order, are
/// already written out as text. Fails on an empty shape, and on a negative
/// dimension or a cell count other than the product of the dimensions.
pub fn generate_array_data_string(dimensions: &Vec<i64>, cells: &Vec<String>) -> (r: Result<
    String,
    CodegenError,
>)
    ensures
        match shape_error(dimensions@, cells@.len() as int) {
            Some(e) => r == Err::<String, CodegenError>(e),
            None => r matches Ok(s) && s@ == literal_text(dimensions@, cells.deep_view()),
        },
{
    let n = dimensions.len();
    if n == 0 {
        return Err(CodegenError::EmptyShapeError);
    }
    let mut k: usize = 0;
    while k < n
        invariant
            n == dimensions.len(),
            0 <= k <= n,
            forall|i: int| 0 <= i < k ==> dimensions@[i] >= 0,
        decreases n - k,
    {
        if dimensions[k] < 0 {
            return Err(CodegenError::DataShapeMismatch);
        }
        k = k + 1;
    }
    assert(dimensions@.subrange(0, n as int) =~= dimensions@);
    let len = cells.len();
    match checked_product(dimensions, 0) {
        Some(p) => {
            if p != len {
                return Err(CodegenError::DataShapeMismatch);
            }
        },
        None => {
            return Err(CodegenError::DataShapeMismatch);
        },
    }
    let mut out = String::new();
    push_literal(dimensions, 0, cells, 0, &mut out);
    assert(cells.deep_view().subrange(0, cells@.len() as int) =~= cells.deep_view());
    assert(out@ =~= literal_text(dimensions@, cells.deep_view()));
    Ok(out)
}

/// Each integer written out in decimal, ready to be a literal's cells.
pub fn int64_cells(data: &Vec<i64>) -> (r: Vec<String>)
    ensures
        r.deep_view() == int_cells(data@),
{
    let mut r: Vec<String> = Vec::new();
    let mut i: usize = 0;
    while i < data.len()
        invariant
            0 <= i <= data.len(),
            r@.len() == i,
            forall|j: int| 0 <= j < i ==> r@[j]@ == decimal_text(data@[j] as int),
        decreases data.len() - i,
    {
        let s = decimal_string(data[i]);
        r.push(s);
        i = i + 1;
    }
    assert(r.deep_view() =~= int_cells(data@));
    r
}

} // verus!
