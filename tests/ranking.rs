use dcli::merge::{merge_medals, merge_weapons, upsert_medal, upsert_weapon};
use dcli::model::{Item, Medal, MedalStat, WeaponStat};
use dcli::rank::sort_by_rank;
use dcli::ratio::Ratio;

fn weapon(id: u32, kills: u32, precision_kills: u32) -> WeaponStat {
    WeaponStat {
        weapon: Item {
            id,
            name: String::new(),
            description: String::new(),
            item_type: 0,
            item_sub_type: 0,
        },
        kills,
        precision_kills,
        precision_kills_percent: Ratio { num: 0, den: 1 },
        activity_count: 1,
    }
}

fn medal(id: &str, count: u32) -> MedalStat {
    MedalStat {
        medal: Medal {
            id: id.to_string(),
            icon_image_path: Some("/img/x.png".to_string()),
            tier: 2,
            name: String::new(),
            description: String::new(),
        },
        count,
    }
}

#[test]
fn ranking_twice_gives_the_same_order() {
    let items = vec![weapon(1, 3, 0), weapon(2, 7, 0), weapon(3, 3, 0), weapon(4, 9, 0)];
    let once = sort_by_rank(items);
    let ids: Vec<u32> = once.iter().map(|w| w.weapon.id).collect();
    assert_eq!(ids, vec![4, 2, 1, 3]);
    let twice = sort_by_rank(once);
    let ids2: Vec<u32> = twice.iter().map(|w| w.weapon.id).collect();
    assert_eq!(ids, ids2);
}

#[test]
fn upsert_weapon_recomputes_precision_share() {
    let mut t = Vec::new();
    upsert_weapon(&mut t, &weapon(8, 3, 1));
    upsert_weapon(&mut t, &weapon(9, 1, 1));
    upsert_weapon(&mut t, &weapon(8, 1, 1));
    assert_eq!(t.len(), 2);
    assert_eq!(t[0].kills, 4);
    assert_eq!(t[0].precision_kills, 2);
    assert_eq!(t[0].activity_count, 2);
    assert_eq!(t[0].precision_kills_percent, Ratio { num: 200, den: 4 });
}

#[test]
fn merged_weapon_with_no_kills_has_zero_share() {
    let mut t = Vec::new();
    merge_weapons(&mut t, &vec![weapon(8, 0, 0), weapon(8, 0, 0)]);
    assert_eq!(t.len(), 1);
    assert_eq!(t[0].precision_kills_percent, Ratio { num: 0, den: 1 });
}

#[test]
fn medals_merge_by_id() {
    let mut t = Vec::new();
    merge_medals(&mut t, &vec![medal("x", 2), medal("y", 0), medal("x", 0)]);
    upsert_medal(&mut t, &medal("y", 5));
    assert_eq!(t.len(), 2);
    assert_eq!(t[0].count, 3);
    assert_eq!(t[1].count, 6);
    assert_eq!(t[0].medal.icon_image_path.as_deref(), Some("/img/x.png"));
}
