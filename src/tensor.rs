//! Byte-size rules for tensor payloads: `shape` elements of a fixed-width type.
use vstd::prelude::*;
use crate::types::{DataType, InferenceInput, InferenceRequest, element_size};

verus! {

/// Number of elements of a tensor of this shape (1 for the empty shape).
pub open spec fn shape_elements(s: Seq<u64>) -> int
    decreases s.len(),
{
    if s.len() == 0 {
        1
    } else {
        shape_elements(s.drop_last()) * s.last()
    }
}

pub open spec fn all_dims_positive(s: Seq<u64>) -> bool {
    forall|i: int| 0 <= i < s.len() ==> s[i] >= 1
}

/// An input whose byte length is exactly its element count times its element size.
pub open spec fn input_well_formed(x: InferenceInput) -> bool {
    x.data@.len() == shape_elements(x.shape@) * element_size(x.data_type)
}

proof fn lemma_elements_zero(s: Seq<u64>, i: int)
    requires
        0 <= i < s.len(),
        s[i] == 0,
    ensures
        shape_elements(s) == 0,
    decreases s.len(),
{
    if i < s.len() - 1 {
        lemma_elements_zero(s.drop_last(), i);
    }
}

proof fn lemma_elements_positive(s: Seq<u64>)
    requires
        all_dims_positive(s),
    ensures
        shape_elements(s) >= 1,
    decreases s.len(),
{
    if s.len() > 0 {
        lemma_elements_positive(s.drop_last());
        let a = shape_elements(s.drop_last());
        let b = s.last() as int;
        assert(a * b >= 1) by (nonlinear_arith)
            requires
                a >= 1,
                b >= 1,
        ;
    }
}

proof fn lemma_elements_prefix_le(s: Seq<u64>, k: int)
    requires
        0 <= k <= s.len(),
        all_dims_positive(s),
    ensures
        shape_elements(s.subrange(0, k)) <= shape_elements(s),
    decreases s.len(),
{
    if k == s.len() {
        assert(s.subrange(0, k) =~= s);
    } else {
        lemma_elements_prefix_le(s.drop_last(), k);
        assert(s.drop_last().subrange(0, k) =~= s.subrange(0, k));
        lemma_elements_positive(s.drop_last());
        let a = shape_elements(s.drop_last());
        let b = s.last() as int;
        assert(a * b >= a) by (nonlinear_arith)
            requires
                a >= 1,
                b >= 1,
        ;
    }
}

/// Bytes a tensor of this shape and type takes; `None` when that exceeds `u64`.
pub fn tensor_byte_len(shape: &Vec<u64>, data_type: DataType) -> (r: Option<u64>)
    ensures
        r matches Some(n) ==> n == shape_elements(shape@) * element_size(data_type),
        r is None ==> shape_elements(shape@) * element_size(data_type) > u64::MAX,
{
    let mut i: usize = 0;
    while i < shape.len()
        invariant
            0 <= i <= shape@.len(),
            forall|j: int| 0 <= j < i ==> shape@[j] >= 1,
        decreases shape@.len() - i,
    {
        if shape[i] == 0 {
            proof {
                lemma_elements_zero(shape@, i as int);
            }
            return Some(0);
        }
        i = i + 1;
    }
    let size = data_type.size_bytes();
    let mut acc: u64 = size;
    let mut k: usize = 0;
    assert(shape@.subrange(0, 0).len() == 0);
    while k < shape.len()
        invariant
            0 <= k <= shape@.len(),
            all_dims_positive(shape@),
            size as int == element_size(data_type),
            acc as int == shape_elements(shape@.subrange(0, k as int)) * size,
        decreases shape@.len() - k,
    {
        let ghost prev = shape_elements(shape@.subrange(0, k as int));
        assert(shape@.subrange(0, k + 1).drop_last() =~= shape@.subrange(0, k as int));
        let d = shape[k];
        match acc.checked_mul(d) {
            None => {
                proof {
                    lemma_elements_prefix_le(shape@, k + 1);
                    let whole = shape_elements(shape@);
                    let part = prev * d;
                    assert(shape_elements(shape@.subrange(0, k + 1)) == part);
                    assert(part * size == (prev * size) * d) by (nonlinear_arith)
                        requires
                            part == prev * d,
                    ;
                    assert(whole * size >= part * size) by (nonlinear_arith)
                        requires
                            whole >= part,
                            size >= 1,
                    ;
                }
                return None;
            },
            Some(x) => {
                proof {
                    assert(prev * d * size == (prev * size) * d) by (nonlinear_arith);
                }
                acc = x;
            },
        }
        k = k + 1;
    }
    assert(shape@.subrange(0, shape@.len() as int) =~= shape@);
    Some(acc)
}

/// Whether an input's byte length matches its shape and element type.
pub fn input_is_well_formed(x: &InferenceInput) -> (r: bool)
    ensures
        r == input_well_formed(*x),
{
    let len = x.data.len();
    match tensor_byte_len(&x.shape, x.data_type) {
        None => {
            assert(len <= usize::MAX);
            false
        },
        Some(n) => len as u64 == n,
    }
}

/// A request with at least one input, every input well formed and of a type in
/// `supported`.
pub open spec fn request_well_formed(req: InferenceRequest, supported: Seq<DataType>) -> bool {
    &&& req.inputs@.len() > 0
    &&& forall|i: int| 0 <= i < req.inputs@.len() ==> {
        &&& input_well_formed(#[trigger] req.inputs@[i])
        &&& supported.contains(req.inputs@[i].data_type)
    }
}

pub fn request_is_well_formed(req: &InferenceRequest, supported: &Vec<DataType>) -> (r: bool)
    ensures
        r == request_well_formed(*req, supported@),
{
    if req.inputs.len() == 0 {
        return false;
    }
    let mut i: usize = 0;
    while i < req.inputs.len()
        invariant
            0 <= i <= req.inputs@.len(),
            forall|j: int| 0 <= j < i ==> {
                &&& input_well_formed(#[trigger] req.inputs@[j])
                &&& supported@.contains(req.inputs@[j].data_type)
            },
        decreases req.inputs@.len() - i,
    {
        if !input_is_well_formed(&req.inputs[i]) {
            return false;
        }
        let t = req.inputs[i].data_type;
        let mut found = false;
        let mut j: usize = 0;
        while j < supported.len()
            invariant
                0 <= j <= supported@.len(),
                found ==> supported@.contains(t),
                !found ==> forall|a: int| 0 <= a < j ==> supported@[a] != t,
            decreases supported@.len() - j,
        {
            if supported[j] == t {
                assert(supported@[j as int] == t);
                found = true;
            }
            j = j + 1;
        }
        if !found {
            return false;
        }
        i = i + 1;
    }
    true
}

} // verus!
