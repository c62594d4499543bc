//! Keyed merging of per-weapon and per-medal entries, and their ranking.
use vstd::prelude::*;
use crate::model::{MedalStat, WeaponStat};
use crate::ratio::{percent, spec_percent};

verus! {

// ---------------------------------------------------------------- weapons

/// No weapon id occurs twice.
pub open spec fn weapon_ids_unique(t: Seq<WeaponStat>) -> bool {
    forall|i: int, j: int| 0 <= i < j < t.len() ==> t[i].weapon.id != t[j].weapon.id
}

pub open spec fn has_weapon(t: Seq<WeaponStat>, id: u32) -> bool {
    exists|i: int| 0 <= i < t.len() && t[i].weapon.id == id
}

pub open spec fn weapon_index(t: Seq<WeaponStat>, id: u32) -> int {
    choose|i: int| 0 <= i < t.len() && t[i].weapon.id == id
}

/// `e` with the kills of `w` added, one more match counted, and the precision share
/// computed anew from the sums.
pub open spec fn merged_weapon(e: WeaponStat, w: WeaponStat) -> WeaponStat {
    let kills = (e.kills + w.kills) as u32;
    let precision_kills = (e.precision_kills + w.precision_kills) as u32;
    WeaponStat {
        weapon: e.weapon,
        kills,
        precision_kills,
        precision_kills_percent: spec_percent(precision_kills, kills),
        activity_count: (e.activity_count + 1) as u32,
    }
}

/// The table after `w`: merged into the entry of its id, or added as it is.
pub open spec fn weapon_upsert(t: Seq<WeaponStat>, w: WeaponStat) -> Seq<WeaponStat> {
    if has_weapon(t, w.weapon.id) {
        let i = weapon_index(t, w.weapon.id);
        t.update(i, merged_weapon(t[i], w))
    } else {
        t.push(w)
    }
}

/// Merging `w` into `t` keeps every count within `u32`.
pub open spec fn weapon_upsert_fits(t: Seq<WeaponStat>, w: WeaponStat) -> bool {
    has_weapon(t, w.weapon.id) ==> {
        let e = t[weapon_index(t, w.weapon.id)];
        &&& e.kills + w.kills <= u32::MAX
        &&& e.precision_kills + w.precision_kills <= u32::MAX
        &&& e.activity_count + 1 <= u32::MAX
    }
}

/// The table `t` after each of `ws`, in order.
pub open spec fn weapons_after(t: Seq<WeaponStat>, ws: Seq<WeaponStat>) -> Seq<WeaponStat>
    decreases ws.len(),
{
    if ws.len() == 0 {
        t
    } else {
        weapon_upsert(weapons_after(t, ws.drop_last()), ws.last())
    }
}

/// Every merge of `ws` into `t` keeps its counts within `u32`.
pub open spec fn weapons_fit_after(t: Seq<WeaponStat>, ws: Seq<WeaponStat>) -> bool
    decreases ws.len(),
{
    if ws.len() == 0 {
        true
    } else {
        weapons_fit_after(t, ws.drop_last()) && weapon_upsert_fits(
            weapons_after(t, ws.drop_last()),
            ws.last(),
        )
    }
}

/// Merges `w` into the entry of the same weapon id, or adds a copy of it.
pub fn upsert_weapon(table: &mut Vec<WeaponStat>, w: &WeaponStat)
    requires
        weapon_ids_unique(old(table)@),
        weapon_upsert_fits(old(table)@, *w),
    ensures
        final(table)@ == weapon_upsert(old(table)@, *w),
        weapon_ids_unique(final(table)@),
{
    let mut i: usize = 0;
    while i < table.len()
        invariant
            i <= table.len(),
            table@ == old(table)@,
            weapon_ids_unique(table@),
            weapon_upsert_fits(table@, *w),
            forall|k: int| 0 <= k < i ==> table@[k].weapon.id != w.weapon.id,
        decreases table.len() - i,
    {
        if table[i].weapon.id == w.weapon.id {
            proof {
                let j = weapon_index(table@, w.weapon.id);
                assert(table@[j].weapon.id == w.weapon.id);
                assert(j == i);
            }
            let e = &table[i];
            let kills = e.kills + w.kills;
            let precision_kills = e.precision_kills + w.precision_kills;
            let merged = WeaponStat {
                weapon: e.weapon.duplicate(),
                kills,
                precision_kills,
                precision_kills_percent: percent(precision_kills, kills),
                activity_count: e.activity_count + 1,
            };
            table.set(i, merged);
            return;
        }
        i = i + 1;
    }
    table.push(w.duplicate());
}

/// A prefix of `ws` also merges within `u32`.
pub proof fn lemma_weapons_fit_after_prefix(t: Seq<WeaponStat>, ws: Seq<WeaponStat>, j: int)
    requires
        weapons_fit_after(t, ws),
        0 <= j <= ws.len(),
    ensures
        weapons_fit_after(t, ws.take(j)),
    decreases ws.len(),
{
    if j == ws.len() {
        assert(ws.take(j) =~= ws);
    } else {
        assert(ws.drop_last().take(j) =~= ws.take(j));
        lemma_weapons_fit_after_prefix(t, ws.drop_last(), j);
    }
}

/// Merges each of `ws`, in order, into the table.
pub fn merge_weapons(table: &mut Vec<WeaponStat>, ws: &Vec<WeaponStat>)
    requires
        weapon_ids_unique(old(table)@),
        weapons_fit_after(old(table)@, ws@),
    ensures
        final(table)@ == weapons_after(old(table)@, ws@),
        weapon_ids_unique(final(table)@),
{
    let ghost t0 = table@;
    let mut j: usize = 0;
    assert(ws@.take(0) =~= Seq::<WeaponStat>::empty());
    while j < ws.len()
        invariant
            j <= ws.len(),
            table@ == weapons_after(t0, ws@.take(j as int)),
            weapon_ids_unique(table@),
            weapons_fit_after(t0, ws@),
        decreases ws.len() - j,
    {
        proof {
            lemma_weapons_fit_after_prefix(t0, ws@, j + 1);
            assert(ws@.take(j + 1).drop_last() =~= ws@.take(j as int));
        }
        upsert_weapon(table, &ws[j]);
        j = j + 1;
    }
    assert(ws@.take(ws.len() as int) =~= ws@);
}

// ---------------------------------------------------------------- medals

/// A reported count of zero stands for one: a medal that was listed was earned.
pub open spec fn corrected_count(c: u32) -> u32 {
    if c == 0 {
        1
    } else {
        c
    }
}

/// No medal id occurs twice.
pub open spec fn medal_ids_unique(t: Seq<MedalStat>) -> bool {
    forall|i: int, j: int| 0 <= i < j < t.len() ==> t[i].medal.id@ != t[j].medal.id@
}

pub open spec fn has_medal(t: Seq<MedalStat>, id: Seq<char>) -> bool {
    exists|i: int| 0 <= i < t.len() && t[i].medal.id@ == id
}

pub open spec fn medal_index(t: Seq<MedalStat>, id: Seq<char>) -> int {
    choose|i: int| 0 <= i < t.len() && t[i].medal.id@ == id
}

/// The table after `m`: its corrected count added to the entry of its id, or added with
/// its count corrected.
pub open spec fn medal_upsert(t: Seq<MedalStat>, m: MedalStat) -> Seq<MedalStat> {
    if has_medal(t, m.medal.id@) {
        let i = medal_index(t, m.medal.id@);
        t.update(
            i,
            MedalStat { medal: t[i].medal, count: (t[i].count + corrected_count(m.count)) as u32 },
        )
    } else {
        t.push(MedalStat { medal: m.medal, count: corrected_count(m.count) })
    }
}

/// Merging `m` into `t` keeps the count within `u32`.
pub open spec fn medal_upsert_fits(t: Seq<MedalStat>, m: MedalStat) -> bool {
    has_medal(t, m.medal.id@) ==> t[medal_index(t, m.medal.id@)].count + corrected_count(m.count)
        <= u32::MAX
}

/// The table `t` after each of `ms`, in order.
pub open spec fn medals_after(t: Seq<MedalStat>, ms: Seq<MedalStat>) -> Seq<MedalStat>
    decreases ms.len(),
{
    if ms.len() == 0 {
        t
    } else {
        medal_upsert(medals_after(t, ms.drop_last()), ms.last())
    }
}

/// Every merge of `ms` into `t` keeps its counts within `u32`.
pub open spec fn medals_fit_after(t: Seq<MedalStat>, ms: Seq<MedalStat>) -> bool
    decreases ms.len(),
{
    if ms.len() == 0 {
        true
    } else {
        medals_fit_after(t, ms.drop_last()) && medal_upsert_fits(
            medals_after(t, ms.drop_last()),
            ms.last(),
        )
    }
}

/// Adds the count of `m` to the entry of the same medal id, or adds a copy of it; a
/// count of zero is taken as one.
pub fn upsert_medal(table: &mut Vec<MedalStat>, m: &MedalStat)
    requires
        medal_ids_unique(old(table)@),
        medal_upsert_fits(old(table)@, *m),
    ensures
        final(table)@ == medal_upsert(old(table)@, *m),
        medal_ids_unique(final(table)@),
{
    let count = if m.count == 0 { 1 } else { m.count };
    let mut i: usize = 0;
    while i < table.len()
        invariant
            i <= table.len(),
            table@ == old(table)@,
            medal_ids_unique(table@),
            medal_upsert_fits(table@, *m),
            count == corrected_count(m.count),
            forall|k: int| 0 <= k < i ==> table@[k].medal.id@ != m.medal.id@,
        decreases table.len() - i,
    {
        if table[i].medal.id == m.medal.id {
            proof {
                let j = medal_index(table@, m.medal.id@);
                assert(table@[j].medal.id@ == m.medal.id@);
                assert(j == i);
            }
            let merged = MedalStat { medal: table[i].medal.duplicate(), count: table[i].count + count };
            table.set(i, merged);
            return;
        }
        i = i + 1;
    }
    table.push(MedalStat { medal: m.medal.duplicate(), count });
}

/// A prefix of `ms` also merges within `u32`.
pub proof fn lemma_medals_fit_after_prefix(t: Seq<MedalStat>, ms: Seq<MedalStat>, j: int)
    requires
        medals_fit_after(t, ms),
        0 <= j <= ms.len(),
    ensures
        medals_fit_after(t, ms.take(j)),
    decreases ms.len(),
{
    if j == ms.len() {
        assert(ms.take(j) =~= ms);
    } else {
        assert(ms.drop_last().take(j) =~= ms.take(j));
        lemma_medals_fit_after_prefix(t, ms.drop_last(), j);
    }
}

/// Merges each of `ms`, in order, into the table.
pub fn merge_medals(table: &mut Vec<MedalStat>, ms: &Vec<MedalStat>)
    requires
        medal_ids_unique(old(table)@),
        medals_fit_after(old(table)@, ms@),
    ensures
        final(table)@ == medals_after(old(table)@, ms@),
        medal_ids_unique(final(table)@),
{
    let ghost t0 = table@;
    let mut j: usize = 0;
    assert(ms@.take(0) =~= Seq::<MedalStat>::empty());
    while j < ms.len()
        invariant
            j <= ms.len(),
            table@ == medals_after(t0, ms@.take(j as int)),
            medal_ids_unique(table@),
            medals_fit_after(t0, ms@),
        decreases ms.len() - j,
    {
        proof {
            lemma_medals_fit_after_prefix(t0, ms@, j + 1);
            assert(ms@.take(j + 1).drop_last() =~= ms@.take(j as int));
        }
        upsert_medal(table, &ms[j]);
        j = j + 1;
    }
    assert(ms@.take(ms.len() as int) =~= ms@);
}

} // verus!
