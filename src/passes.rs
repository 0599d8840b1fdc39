//! The pass scheduler: gathers the passes computed per station into one list
//! ordered by acquisition of signal, and tells when that list has gone stale.
use vstd::prelude::*;
use crate::records::{GroundSite, PassWindow, StationPasses, TLGroundStation, TLPass};

verus! {

/// How far ahead passes are computed: three days, in seconds.
pub const HORIZON_SECONDS: i64 = 259200;

/// How long after its loss of signal the first pass makes the list stale, in
/// seconds. Small enough to drop a pass soon after it ends, large enough not
/// to recompute on every tick around its end.
pub const STALE_AFTER_SECONDS: i64 = 30;

pub open spec fn sorted_by_aos(s: Seq<TLPass>) -> bool {
    forall|i: int, j: int| 0 <= i < j < s.len() ==> s[i].pass.aos <= s[j].pass.aos
}

/// `out` is `input` rearranged by `idx` (`out[i]` is `input[idx[i]]`, each
/// index once), and entries of equal acquisition time keep their order.
pub open spec fn stable_arrangement(input: Seq<TLPass>, out: Seq<TLPass>, idx: Seq<int>) -> bool {
    &&& out.len() == input.len()
    &&& idx.len() == input.len()
    &&& forall|i: int| 0 <= i < out.len() ==> 0 <= #[trigger] idx[i] < input.len() && out[i] == input[idx[i]]
    &&& forall|i: int, j: int| 0 <= i < j < out.len() ==> #[trigger] idx[i] != #[trigger] idx[j]
    &&& forall|i: int, j: int|
        0 <= i < j < out.len() && out[i].pass.aos == out[j].pass.aos ==> #[trigger] idx[i] < #[trigger] idx[j]
}

/// `out` is `input` stably sorted by acquisition time.
pub open spec fn is_stable_sort(input: Seq<TLPass>, out: Seq<TLPass>) -> bool {
    &&& sorted_by_aos(out)
    &&& exists|idx: Seq<int>| stable_arrangement(input, out, idx)
}

/// The passes of each station tagged with it, station after station.
pub open spec fn tagged(per: Seq<StationPasses>) -> Seq<TLPass>
    decreases per.len(),
{
    if per.len() == 0 {
        Seq::empty()
    } else {
        tagged(per.drop_last()) + per.last().passes@.map_values(
            |w: PassWindow| TLPass { pass: w, station: per.last().station },
        )
    }
}

/// The sites of the active stations, in list order.
pub open spec fn active_sites(s: Seq<TLGroundStation>) -> Seq<GroundSite>
    decreases s.len(),
{
    if s.len() == 0 {
        Seq::empty()
    } else if s.last().active {
        active_sites(s.drop_last()).push(s.last().station)
    } else {
        active_sites(s.drop_last())
    }
}

impl PassWindow {
    pub fn copy(&self) -> (r: PassWindow)
        ensures
            r == *self,
    {
        PassWindow { aos: self.aos, los: self.los, tme: self.tme, max_elevation: self.max_elevation.copy() }
    }
}

/// The sites of the stations marked active.
pub fn collect_active_sites(stations: &Vec<TLGroundStation>) -> (r: Vec<GroundSite>)
    ensures
        r@ == active_sites(stations@),
{
    let mut r: Vec<GroundSite> = Vec::new();
    let mut i: usize = 0;
    while i < stations.len()
        invariant
            i <= stations@.len(),
            r@ == active_sites(stations@.take(i as int)),
        decreases stations@.len() - i,
    {
        proof {
            assert(stations@.take(i + 1).drop_last() =~= stations@.take(i as int));
        }
        if stations[i].active {
            r.push(stations[i].station.copy());
        }
        i = i + 1;
    }
    proof {
        assert(stations@.take(i as int) =~= stations@);
    }
    r
}

/// Every pass of every station, tagged with its station, station after station.
pub fn flatten_passes(per_station: &Vec<StationPasses>) -> (r: Vec<TLPass>)
    ensures
        r@ == tagged(per_station@),
{
    let mut r: Vec<TLPass> = Vec::new();
    let mut s: usize = 0;
    while s < per_station.len()
        invariant
            s <= per_station@.len(),
            r@ == tagged(per_station@.take(s as int)),
        decreases per_station@.len() - s,
    {
        let sp = &per_station[s];
        let ghost before = r@;
        let ghost mapped = sp.passes@.map_values(
            |w: PassWindow| TLPass { pass: w, station: sp.station },
        );
        let mut j: usize = 0;
        while j < sp.passes.len()
            invariant
                j <= sp.passes@.len(),
                mapped == sp.passes@.map_values(|w: PassWindow| TLPass { pass: w, station: sp.station }),
                r@ == before + mapped.take(j as int),
            decreases sp.passes@.len() - j,
        {
            let p = TLPass { pass: sp.passes[j].copy(), station: sp.station.copy() };
            r.push(p);
            proof {
                assert(mapped.take(j + 1) =~= mapped.take(j as int).push(mapped[j as int]));
                assert(r@ =~= before + mapped.take(j + 1));
            }
            j = j + 1;
        }
        proof {
            let t = per_station@.take(s + 1);
            assert(t.drop_last() =~= per_station@.take(s as int));
            assert(mapped.take(j as int) =~= mapped);
            assert(r@ =~= tagged(t));
        }
        s = s + 1;
    }
    proof {
        assert(per_station@.take(s as int) =~= per_station@);
    }
    r
}

/// Sorts passes by acquisition time, keeping the order of equal times.
pub fn sort_passes(passes: Vec<TLPass>) -> (r: Vec<TLPass>)
    ensures
        is_stable_sort(passes@, r@),
{
    let ghost input = passes@;
    let mut rest = passes;
    let mut r: Vec<TLPass> = Vec::new();
    let ghost mut idx: Seq<int> = Seq::empty();
    while rest.len() > 0
        invariant
            rest@ == input.take(rest@.len() as int),
            rest@.len() <= input.len(),
            r@.len() == input.len() - rest@.len(),
            idx.len() == r@.len(),
            sorted_by_aos(r@),
            forall|i: int| 0 <= i < r@.len() ==> rest@.len() <= #[trigger] idx[i] < input.len() && r@[i] == input[idx[i]],
            forall|i: int, j: int| 0 <= i < j < r@.len() ==> #[trigger] idx[i] != #[trigger] idx[j],
            forall|i: int, j: int|
                0 <= i < j < r@.len() && r@[i].pass.aos == r@[j].pass.aos ==> #[trigger] idx[i] < #[trigger] idx[j],
        decreases rest@.len(),
    {
        let ghost k = rest@.len() - 1;
        let x = rest.pop().unwrap();
        proof {
            assert(x == input[k]);
            assert(rest@ =~= input.take(k));
        }
        let mut p: usize = 0;
        while p < r.len() && r[p].pass.aos < x.pass.aos
            invariant
                p <= r@.len(),
                forall|i: int| 0 <= i < p ==> r@[i].pass.aos < x.pass.aos,
            decreases r@.len() - p,
        {
            p = p + 1;
        }
        let ghost old_r = r@;
        let ghost old_idx = idx;
        r.insert(p, x);
        proof {
            idx = old_idx.insert(p as int, k);
            assert(p < old_r.len() ==> old_r[p as int].pass.aos >= x.pass.aos);
            assert forall|i: int, j: int| 0 <= i < j < r@.len() implies r@[i].pass.aos <= r@[j].pass.aos by {
                if j < p {
                } else if j == p {
                } else if i < p {
                    assert(r@[j] == old_r[j - 1]);
                } else if i == p {
                    assert(r@[j] == old_r[j - 1]);
                    assert(old_r[p as int].pass.aos <= old_r[j - 1].pass.aos);
                } else {
                    assert(r@[i] == old_r[i - 1]);
                    assert(r@[j] == old_r[j - 1]);
                }
            }
            assert forall|i: int| 0 <= i < r@.len() implies rest@.len() <= #[trigger] idx[i] < input.len()
                && r@[i] == input[idx[i]] by {
                if i < p {
                    assert(idx[i] == old_idx[i]);
                } else if i > p {
                    assert(idx[i] == old_idx[i - 1]);
                }
            }
            assert forall|i: int, j: int| 0 <= i < j < r@.len() implies #[trigger] idx[i] != #[trigger] idx[j] by {
                if i < p && j > p {
                    assert(idx[j] == old_idx[j - 1]);
                } else if i > p {
                    assert(idx[i] == old_idx[i - 1]);
                    assert(idx[j] == old_idx[j - 1]);
                } else if j < p {
                } else if i == p {
                    assert(idx[j] == old_idx[j - 1]);
                } else {
                    assert(idx[j] == k);
                }
            }
            assert forall|i: int, j: int|
                0 <= i < j < r@.len() && r@[i].pass.aos == r@[j].pass.aos implies #[trigger] idx[i] < #[trigger] idx[j] by {
                if i < p && j > p {
                    assert(idx[j] == old_idx[j - 1]);
                    assert(r@[j] == old_r[j - 1]);
                    assert(old_r[i].pass.aos < x.pass.aos);
                    assert(old_r[j - 1].pass.aos >= old_r[p as int].pass.aos);
                } else if i > p {
                    assert(idx[i] == old_idx[i - 1]);
                    assert(idx[j] == old_idx[j - 1]);
                    assert(r@[i] == old_r[i - 1]);
                    assert(r@[j] == old_r[j - 1]);
                } else if j < p {
                } else if i == p {
                    assert(idx[j] == old_idx[j - 1]);
                } else {
                    assert(old_r[i].pass.aos < x.pass.aos);
                }
            }
        }
    }
    proof {
        assert(stable_arrangement(input, r@, idx));
    }
    r
}

/// The passes of all stations in one list, stably sorted by acquisition time.
pub fn gather_passes(per_station: &Vec<StationPasses>) -> (r: Vec<TLPass>)
    ensures
        is_stable_sort(tagged(per_station@), r@),
        sorted_by_aos(r@),
{
    let all = flatten_passes(per_station);
    sort_passes(all)
}

/// The list is stale once its first pass lost signal more than
/// `STALE_AFTER_SECONDS` before `now`.
pub open spec fn stale(passes: Seq<TLPass>, now: i64) -> bool {
    passes.len() > 0 && passes[0].pass.los - now < -STALE_AFTER_SECONDS
}

pub fn passes_stale(passes: &Vec<TLPass>, now: i64) -> (r: bool)
    ensures
        r == stale(passes@, now),
{
    passes.len() > 0 && (passes[0].pass.los as i128) - (now as i128) < -(STALE_AFTER_SECONDS as i128)
}

/// The end of the horizon that starts at `now`, saturating at the largest time.
pub fn horizon_end(now: i64) -> (r: i64)
    ensures
        r == if now + HORIZON_SECONDS <= i64::MAX { now + HORIZON_SECONDS } else { i64::MAX as int },
{
    if now <= i64::MAX - HORIZON_SECONDS {
        now + HORIZON_SECONDS
    } else {
        i64::MAX
    }
}

} // verus!

verus! {

/// The staleness rule: a first pass that lost signal more than
/// `STALE_AFTER_SECONDS` before `now` makes the list stale, and a first pass
/// that has not yet lost signal never does.
pub proof fn lemma_stale_trigger(passes: Seq<TLPass>, now: i64)
    ensures
        passes.len() > 0 && passes[0].pass.los < now - STALE_AFTER_SECONDS ==> stale(passes, now),
        passes.len() > 0 && passes[0].pass.los >= now ==> !stale(passes, now),
        passes.len() == 0 ==> !stale(passes, now),
{
}

} // verus!
