use vstd::prelude::*;

verus! {

/// Mathematical sum of a percentage table.
pub open spec fn table_sum(s: Seq<u32>) -> int
    decreases s.len(),
{
    if s.len() == 0 {
        0
    } else {
        table_sum(s.drop_last()) + s.last()
    }
}

/// Extending a table by one entry adds that entry to the sum.
pub proof fn lemma_table_sum_take_succ(s: Seq<u32>, i: int)
    requires
        0 <= i < s.len(),
    ensures
        table_sum(s.take(i + 1)) == table_sum(s.take(i)) + s[i],
{
    assert(s.take(i + 1).drop_last() =~= s.take(i));
    assert(s.take(i + 1).last() == s[i]);
}

/// Every entry of a table is bounded by the table's sum.
pub proof fn lemma_elem_le_table_sum(s: Seq<u32>, i: int)
    requires
        0 <= i < s.len(),
    ensures
        s[i] <= table_sum(s),
    decreases s.len(),
{
    if i == s.len() - 1 {
        assert(table_sum(s.drop_last()) >= 0) by {
            lemma_table_sum_nonneg(s.drop_last());
        }
    } else {
        lemma_elem_le_table_sum(s.drop_last(), i);
    }
}

/// A table of non-negative entries has a non-negative sum.
pub proof fn lemma_table_sum_nonneg(s: Seq<u32>)
    ensures
        table_sum(s) >= 0,
    decreases s.len(),
{
    if s.len() > 0 {
        lemma_table_sum_nonneg(s.drop_last());
    }
}

/// Sums a percentage table. The length bound keeps the running total within
/// `u64` range.
pub fn sum_table(t: &Vec<u32>) -> (r: u64)
    requires
        t@.len() <= 0xffff_ffff,
    ensures
        r == table_sum(t@),
{
    let mut acc: u64 = 0;
    let mut i: usize = 0;
    proof {
        assert(t@.take(0) =~= Seq::<u32>::empty());
    }
    while i < t.len()
        invariant
            i <= t@.len(),
            t@.len() <= 0xffff_ffff,
            acc == table_sum(t@.take(i as int)),
            acc <= i * 0xffff_ffff,
        decreases t@.len() - i,
    {
        let v = t[i];
        proof {
            lemma_table_sum_take_succ(t@, i as int);
        }
        acc = acc + (v as u64);
        i = i + 1;
    }
    proof {
        assert(t@.take(t@.len() as int) =~= t@);
    }
    acc
}

/// Copies a percentage table entry by entry.
pub fn copy_table(src: &Vec<u32>) -> (r: Vec<u32>)
    ensures
        r@ == src@,
{
    let mut r: Vec<u32> = Vec::new();
    let mut i: usize = 0;
    while i < src.len()
        invariant
            i <= src@.len(),
            r@ == src@.take(i as int),
        decreases src@.len() - i,
    {
        r.push(src[i]);
        proof {
            assert(r@ =~= src@.take(i + 1));
        }
        i = i + 1;
    }
    proof {
        assert(src@.take(src@.len() as int) =~= src@);
    }
    r
}

} // verus!
