use vstd::prelude::*;

verus! {

/// Number of workgroups of `group` invocations along one axis that cover `extent` cells:
/// the fewest whose total reaches `extent`.
pub open spec fn groups_covering(extent: nat, group: nat) -> nat
    recommends
        group > 0,
{
    if extent % group == 0 {
        extent / group
    } else {
        extent / group + 1
    }
}

/// Workgroups needed along one axis to cover `extent` cells with groups of `group`.
pub fn workgroup_count(extent: u32, group: u32) -> (r: u32)
    requires
        group > 0,
    ensures
        r == groups_covering(extent as nat, group as nat),
        r * group >= extent,
        r == 0 || (r - 1) * group < extent,
{
    let q = extent / group;
    let r = if extent % group == 0 {
        q
    } else {
        assert(q < u32::MAX) by (nonlinear_arith)
            requires
                extent % group != 0,
                q == extent / group,
                group > 0,
        ;
        q + 1
    };
    proof {
        let e = extent as int;
        let g = group as int;
        assert(e == (e / g) * g + e % g) by (nonlinear_arith)
            requires
                g > 0,
        ;
        if e % g != 0 {
            assert((e / g + 1) * g == (e / g) * g + g) by (nonlinear_arith);
        }
        assert(r * g >= e && (r == 0 || (r - 1) * g < e)) by (nonlinear_arith)
            requires
                g > 0,
                e == (e / g) * g + e % g,
                0 <= e % g < g,
                e % g == 0 ==> r == e / g,
                e % g != 0 ==> r == e / g + 1,
        ;
    }
    r
}

} // verus!
