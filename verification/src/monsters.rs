//! The Monster reference-data entity: its record type, the conversion from
//! the seed-file shape, and the idempotent seeding step of bootstrap.

use vstd::prelude::*;
use vstd::string::*;

use crate::errors::{SResult, YaddakError, YaddakErrorKind};
use crate::repo::{views_of, Entity, Table};
use crate::db::{
    binds_of, build_create_table, build_delete, build_insert, build_select, build_select_all,
    build_update, create_table_sql, delete_sql, insert_sql, names_of, select_all_sql, select_sql,
    update_sql, ColKind, ColumnSpec, ColumnSpecV, DbValue, DbValueV, FkSpec, FkSpecV,
};
use crate::text::{eq_verbatim, head_before, head_before_first};

verus! {

/// The identifier under which imported reference records are owned.
pub const WOTCUUID: u128 = 0xba4726f1_5df7_4798_a530_66ad845e1b05u128;

/// One reference-data record.  The challenge rating is held in thousandths
/// so that fractional ratings stay exact integers.
#[derive(Debug)]
pub struct Monster {
    pub id: u128,
    pub name: String,
    pub meta: String,
    pub armor_class: String,
    pub hit_points: String,
    pub speed: String,
    pub str: i16,
    pub dex: i16,
    pub con: i16,
    pub int: i16,
    pub wis: i16,
    pub cha: i16,
    pub saving_throws: String,
    pub skills: String,
    pub senses: String,
    pub languages: String,
    pub challenge: u32,
    pub traits: Option<String>,
    pub actions: String,
    pub damage_immunities: Option<String>,
    pub condition_immunities: Option<String>,
    pub legendary_actions: Option<String>,
    pub img_url: String,
    pub user_id: u128,
}

/// The value view of a `Monster`.
pub struct MonsterV {
    pub id: u128,
    pub name: Seq<char>,
    pub meta: Seq<char>,
    pub armor_class: Seq<char>,
    pub hit_points: Seq<char>,
    pub speed: Seq<char>,
    pub str: i16,
    pub dex: i16,
    pub con: i16,
    pub int: i16,
    pub wis: i16,
    pub cha: i16,
    pub saving_throws: Seq<char>,
    pub skills: Seq<char>,
    pub senses: Seq<char>,
    pub languages: Seq<char>,
    pub challenge: u32,
    pub traits: Option<Seq<char>>,
    pub actions: Seq<char>,
    pub damage_immunities: Option<Seq<char>>,
    pub condition_immunities: Option<Seq<char>>,
    pub legendary_actions: Option<Seq<char>>,
    pub img_url: Seq<char>,
    pub user_id: u128,
}

/// The view of an optional text field.
pub open spec fn opt_view(o: Option<String>) -> Option<Seq<char>> {
    match o {
        Some(s) => Some(s@),
        None => None,
    }
}

fn opt_dup(o: &Option<String>) -> (r: Option<String>)
    ensures
        opt_view(r) == opt_view(*o),
{
    match o {
        Some(s) => Some(s.clone()),
        None => None,
    }
}

impl View for Monster {
    type V = MonsterV;

    open spec fn view(&self) -> MonsterV {
        MonsterV {
            id: self.id,
            name: self.name@,
            meta: self.meta@,
            armor_class: self.armor_class@,
            hit_points: self.hit_points@,
            speed: self.speed@,
            str: self.str,
            dex: self.dex,
            con: self.con,
            int: self.int,
            wis: self.wis,
            cha: self.cha,
            saving_throws: self.saving_throws@,
            skills: self.skills@,
            senses: self.senses@,
            languages: self.languages@,
            challenge: self.challenge,
            traits: opt_view(self.traits),
            actions: self.actions@,
            damage_immunities: opt_view(self.damage_immunities),
            condition_immunities: opt_view(self.condition_immunities),
            legendary_actions: opt_view(self.legendary_actions),
            img_url: self.img_url@,
            user_id: self.user_id,
        }
    }
}

impl Entity for Monster {
    open spec fn key_spec(v: MonsterV) -> u128 {
        v.id
    }

    open spec fn update_spec(cur: MonsterV, src: MonsterV) -> MonsterV {
        MonsterV { id: cur.id, ..src }
    }

    fn key_of(&self) -> (r: u128) {
        self.id
    }

    fn duplicate(&self) -> (r: Self) {
        Monster {
            id: self.id,
            name: self.name.clone(),
            meta: self.meta.clone(),
            armor_class: self.armor_class.clone(),
            hit_points: self.hit_points.clone(),
            speed: self.speed.clone(),
            str: self.str,
            dex: self.dex,
            con: self.con,
            int: self.int,
            wis: self.wis,
            cha: self.cha,
            saving_throws: self.saving_throws.clone(),
            skills: self.skills.clone(),
            senses: self.senses.clone(),
            languages: self.languages.clone(),
            challenge: self.challenge,
            traits: opt_dup(&self.traits),
            actions: self.actions.clone(),
            damage_immunities: opt_dup(&self.damage_immunities),
            condition_immunities: opt_dup(&self.condition_immunities),
            legendary_actions: opt_dup(&self.legendary_actions),
            img_url: self.img_url.clone(),
            user_id: self.user_id,
        }
    }

    fn updated(&self, src: &Self) -> (r: Self) {
        let mut r = src.duplicate();
        r.id = self.id;
        r
    }
}

/// The seed-file shape of a reference record: the challenge rating is the
/// raw text of the source file.
#[derive(Debug)]
pub struct MonsterFromJson {
    pub name: String,
    pub meta: String,
    pub armor_class: String,
    pub hit_points: String,
    pub speed: String,
    pub str: i16,
    pub dex: i16,
    pub con: i16,
    pub int: i16,
    pub wis: i16,
    pub cha: i16,
    pub saving_throws: String,
    pub skills: String,
    pub senses: String,
    pub languages: String,
    pub challenge: String,
    pub traits: Option<String>,
    pub actions: String,
    pub damage_immunities: Option<String>,
    pub condition_immunities: Option<String>,
    pub legendary_actions: Option<String>,
    pub img_url: String,
}

/// The value view of a `MonsterFromJson`.
pub struct MonsterFromJsonV {
    pub name: Seq<char>,
    pub meta: Seq<char>,
    pub armor_class: Seq<char>,
    pub hit_points: Seq<char>,
    pub speed: Seq<char>,
    pub str: i16,
    pub dex: i16,
    pub con: i16,
    pub int: i16,
    pub wis: i16,
    pub cha: i16,
    pub saving_throws: Seq<char>,
    pub skills: Seq<char>,
    pub senses: Seq<char>,
    pub languages: Seq<char>,
    pub challenge: Seq<char>,
    pub traits: Option<Seq<char>>,
    pub actions: Seq<char>,
    pub damage_immunities: Option<Seq<char>>,
    pub condition_immunities: Option<Seq<char>>,
    pub legendary_actions: Option<Seq<char>>,
    pub img_url: Seq<char>,
}

impl View for MonsterFromJson {
    type V = MonsterFromJsonV;

    open spec fn view(&self) -> MonsterFromJsonV {
        MonsterFromJsonV {
            name: self.name@,
            meta: self.meta@,
            armor_class: self.armor_class@,
            hit_points: self.hit_points@,
            speed: self.speed@,
            str: self.str,
            dex: self.dex,
            con: self.con,
            int: self.int,
            wis: self.wis,
            cha: self.cha,
            saving_throws: self.saving_throws@,
            skills: self.skills@,
            senses: self.senses@,
            languages: self.languages@,
            challenge: self.challenge@,
            traits: opt_view(self.traits),
            actions: self.actions@,
            damage_immunities: opt_view(self.damage_immunities),
            condition_immunities: opt_view(self.condition_immunities),
            legendary_actions: opt_view(self.legendary_actions),
            img_url: self.img_url@,
        }
    }
}

impl MonsterFromJson {
    pub fn duplicate(&self) -> (r: Self)
        ensures
            r@ == self@,
    {
        MonsterFromJson {
            name: self.name.clone(),
            meta: self.meta.clone(),
            armor_class: self.armor_class.clone(),
            hit_points: self.hit_points.clone(),
            speed: self.speed.clone(),
            str: self.str,
            dex: self.dex,
            con: self.con,
            int: self.int,
            wis: self.wis,
            cha: self.cha,
            saving_throws: self.saving_throws.clone(),
            skills: self.skills.clone(),
            senses: self.senses.clone(),
            languages: self.languages.clone(),
            challenge: self.challenge.clone(),
            traits: opt_dup(&self.traits),
            actions: self.actions.clone(),
            damage_immunities: opt_dup(&self.damage_immunities),
            condition_immunities: opt_dup(&self.condition_immunities),
            legendary_actions: opt_dup(&self.legendary_actions),
            img_url: self.img_url.clone(),
        }
    }
}

/// Whether `c` is a decimal digit.
pub open spec fn is_digit(c: char) -> bool {
    c == '0' || c == '1' || c == '2' || c == '3' || c == '4' || c == '5' || c == '6' || c == '7'
        || c == '8' || c == '9'
}

/// The value of a decimal digit character.
pub open spec fn digit_val(c: char) -> nat {
    if c == '0' {
        0
    } else if c == '1' {
        1
    } else if c == '2' {
        2
    } else if c == '3' {
        3
    } else if c == '4' {
        4
    } else if c == '5' {
        5
    } else if c == '6' {
        6
    } else if c == '7' {
        7
    } else if c == '8' {
        8
    } else {
        9
    }
}

/// Whether every character of `s` is a decimal digit.
pub open spec fn all_digits(s: Seq<char>) -> bool {
    forall|i: int| 0 <= i < s.len() ==> is_digit(s[i])
}

/// The value of a digit string.
pub open spec fn dec_value(s: Seq<char>) -> nat
    decreases s.len(),
{
    if s.len() == 0 {
        0
    } else {
        dec_value(s.drop_last()) * 10 + digit_val(s.last())
    }
}

/// The challenge rating encoded by one token of the source text, in
/// thousandths: the three book fractions map to their exact values, a
/// plain decimal number to a thousandfold, anything else to zero.  A token
/// with a decimal point, which the catalog never uses, counts as anything
/// else.
pub open spec fn challenge_value(s: Seq<char>) -> nat {
    if s == "1/8"@ {
        125
    } else if s == "1/4"@ {
        250
    } else if s == "1/2"@ {
        500
    } else if s.len() > 0 && all_digits(s) && dec_value(s) <= 4_294_967 {
        dec_value(s) * 1000
    } else {
        0
    }
}

fn digit_of(c: char) -> (r: Option<u32>)
    ensures
        r is Some ==> is_digit(c) && r->0 == digit_val(c) && r->0 < 10,
        r is None ==> !is_digit(c),
{
    match c {
        '0' => Some(0),
        '1' => Some(1),
        '2' => Some(2),
        '3' => Some(3),
        '4' => Some(4),
        '5' => Some(5),
        '6' => Some(6),
        '7' => Some(7),
        '8' => Some(8),
        '9' => Some(9),
        _ => None,
    }
}

/// Converts one token of challenge text to thousandths.
#[verifier::loop_isolation(false)]
pub fn challenge_convert(string: &str) -> (r: u32)
    ensures
        r == challenge_value(string@),
{
    proof {
        reveal_strlit("1/8");
        reveal_strlit("1/4");
        reveal_strlit("1/2");
    }
    if eq_verbatim(string, "1/8") {
        return 125;
    }
    if eq_verbatim(string, "1/4") {
        return 250;
    }
    if eq_verbatim(string, "1/2") {
        return 500;
    }
    let n = string.unicode_len();
    if n == 0 {
        return 0;
    }
    let mut acc: u32 = 0;
    let mut big = false;
    let mut i: usize = 0;
    while i < n
        invariant
            0 < n == string@.len(),
            i <= n,
            all_digits(string@.subrange(0, i as int)),
            !big ==> acc == dec_value(string@.subrange(0, i as int)) && acc <= 4_294_967,
            big ==> dec_value(string@.subrange(0, i as int)) > 4_294_967,
        decreases n - i,
    {
        let c = string.get_char(i);
        match digit_of(c) {
            Some(d) => {
                proof {
                    assert(string@.subrange(0, i + 1).drop_last() =~= string@.subrange(
                        0,
                        i as int,
                    ));
                    assert(string@.subrange(0, i + 1).last() == string@[i as int]);
                }
                if big {
                    proof {
                        assert(dec_value(string@.subrange(0, i + 1)) > 4_294_967);
                    }
                } else {
                    let next: u32 = acc * 10 + d;
                    if next > 4_294_967 {
                        big = true;
                    } else {
                        acc = next;
                    }
                }
            },
            None => {
                proof {
                    assert(!all_digits(string@));
                    assert(string@ != "1/8"@ && string@ != "1/4"@ && string@ != "1/2"@);
                }
                return 0;
            },
        }
        i = i + 1;
    }
    proof {
        assert(string@.subrange(0, n as int) =~= string@);
    }
    if big {
        0
    } else {
        acc * 1000
    }
}

/// The fractional digits of a challenge rating, in thousandths, with
/// trailing zeroes trimmed.
pub open spec fn frac3(f: nat) -> Seq<char> {
    if f % 10 != 0 {
        seq![
            crate::text::digit_char(f / 100),
            crate::text::digit_char((f / 10) % 10),
            crate::text::digit_char(f % 10),
        ]
    } else if f % 100 != 0 {
        seq![crate::text::digit_char(f / 100), crate::text::digit_char((f / 10) % 10)]
    } else {
        seq![crate::text::digit_char(f / 100)]
    }
}

/// The decimal rendering of a challenge rating held in thousandths: the
/// whole part, then a point and the trimmed fractional digits when the
/// rating is not whole.
pub open spec fn challenge_text(n: nat) -> Seq<char> {
    if n % 1000 == 0 {
        crate::text::dec_digits(n / 1000)
    } else {
        crate::text::dec_digits(n / 1000) + seq!['.'] + frac3(n % 1000)
    }
}

/// Renders a challenge rating held in thousandths as decimal text.
pub fn challenge_to_text(n: u32) -> (r: String)
    ensures
        r@ == challenge_text(n as nat),
{
    let whole: u32 = n / 1000;
    let f: u32 = n % 1000;
    let mut s = crate::text::u32_to_dec(whole);
    if f != 0 {
        proof {
            reveal_strlit(".");
        }
        s.append(".");
        let d1 = crate::text::u32_to_dec(f / 100);
        s.append(d1.as_str());
        if f % 100 != 0 || f % 10 != 0 {
            let d2 = crate::text::u32_to_dec((f / 10) % 10);
            s.append(d2.as_str());
        }
        if f % 10 != 0 {
            let d3 = crate::text::u32_to_dec(f % 10);
            s.append(d3.as_str());
        }
        proof {
            assert(s@ =~= challenge_text(n as nat));
        }
    }
    s
}

/// The record that conversion admits for one seed entry under a given
/// identifier: the challenge token is the first space-delimited segment of
/// the source text, and the owner is the fixed reference identifier.
pub open spec fn convert_spec(id: u128, m: MonsterFromJsonV) -> MonsterV {
    MonsterV {
        id,
        name: m.name,
        meta: m.meta,
        armor_class: m.armor_class,
        hit_points: m.hit_points,
        speed: m.speed,
        str: m.str,
        dex: m.dex,
        con: m.con,
        int: m.int,
        wis: m.wis,
        cha: m.cha,
        saving_throws: m.saving_throws,
        skills: m.skills,
        senses: m.senses,
        languages: m.languages,
        challenge: challenge_value(head_before(m.challenge, ' ')) as u32,
        traits: m.traits,
        actions: m.actions,
        damage_immunities: m.damage_immunities,
        condition_immunities: m.condition_immunities,
        legendary_actions: m.legendary_actions,
        img_url: m.img_url,
        user_id: WOTCUUID,
    }
}

impl Monster {
    /// Converts one seed entry under a caller-chosen identifier.
    pub fn from_json_with_id(id: u128, value: MonsterFromJson) -> (r: Monster)
        ensures
            r@ == convert_spec(id, value@),
    {
        let token = head_before_first(value.challenge.as_str(), ' ');
        let challenge = challenge_convert(token.as_str());
        Monster {
            id,
            name: value.name,
            meta: value.meta,
            armor_class: value.armor_class,
            hit_points: value.hit_points,
            speed: value.speed,
            str: value.str,
            dex: value.dex,
            con: value.con,
            int: value.int,
            wis: value.wis,
            cha: value.cha,
            saving_throws: value.saving_throws,
            skills: value.skills,
            senses: value.senses,
            languages: value.languages,
            challenge,
            traits: value.traits,
            actions: value.actions,
            damage_immunities: value.damage_immunities,
            condition_immunities: value.condition_immunities,
            legendary_actions: value.legendary_actions,
            img_url: value.img_url,
            user_id: WOTCUUID,
        }
    }

    /// Converts one seed entry under a freshly drawn identifier.
    pub fn from_json(value: MonsterFromJson) -> (r: Monster)
        ensures
            r@ == convert_spec(r@.id, value@),
    {
        let id = crate::ids::fresh_id();
        Monster::from_json_with_id(id, value)
    }
}

/// Whether a stored record carries the sentinel name that marks the seed
/// import as already done.
pub open spec fn sentinel_present(rows: Seq<MonsterV>) -> bool {
    exists|i: int| 0 <= i < rows.len() && rows[i].name == "Aboleth"@
}

/// Whether some seed entry carries the sentinel name.
pub open spec fn seed_has_sentinel(seed: Seq<MonsterFromJsonV>) -> bool {
    exists|j: int| 0 <= j < seed.len() && seed[j].name == "Aboleth"@
}

/// Whether `added` is a converted prefix of `seed`: each added record is
/// the conversion of the seed entry at its position, under some identifier.
pub open spec fn seeds_match(seed: Seq<MonsterFromJsonV>, added: Seq<MonsterV>) -> bool {
    added.len() <= seed.len() && forall|i: int|
        0 <= i < added.len() ==> added[i] == convert_spec(added[i].id, seed[i])
}

/// What one seeding run leaves behind: when the sentinel is already
/// stored, nothing changes and the run succeeds; otherwise the run appends
/// conversions of a prefix of the seed list, the whole list exactly when it
/// succeeds.
pub open spec fn seeding_post(
    old_rows: Seq<MonsterV>,
    new_rows: Seq<MonsterV>,
    seed: Seq<MonsterFromJsonV>,
    ok: bool,
) -> bool {
    if sentinel_present(old_rows) {
        ok && new_rows == old_rows
    } else {
        new_rows.len() >= old_rows.len() && new_rows.subrange(0, old_rows.len() as int)
            == old_rows && seeds_match(
            seed,
            new_rows.subrange(old_rows.len() as int, new_rows.len() as int),
        ) && (ok ==> new_rows.len() == old_rows.len() + seed.len())
    }
}

impl Monster {
    /// Imports the seed records exactly once: when no stored record carries
    /// the sentinel name, every seed entry is converted and inserted; a
    /// repeated run finds the sentinel and changes nothing.
    #[verifier::rlimit(60)]
    #[verifier::loop_isolation(false)]
    pub fn migrate_json(table: &mut Table<Monster>, monsters: &Vec<MonsterFromJson>) -> (r:
        SResult<()>)
        ensures
            final(table).created == old(table).created,
            !old(table).created ==> r is Err && r->Err_0.kind == YaddakErrorKind::DBError
                && final(table).rows == old(table).rows,
            old(table).created ==> seeding_post(
                old(table).view_rows(),
                final(table).view_rows(),
                views_of(monsters@),
                r is Ok,
            ),
            old(table).created && r is Err ==> r->Err_0.kind == YaddakErrorKind::DBError,
    {
        if !table.created {
            return Err(YaddakError::database_error(String::from_str("no such table")));
        }
        let mut seen = false;
        let mut i: usize = 0;
        while i < table.rows.len() && !seen
            invariant
                i <= table.rows@.len(),
                forall|k: int| 0 <= k < i ==> table.view_rows()[k].name != "Aboleth"@,
                seen ==> i < table.rows@.len() && table.view_rows()[i as int].name == "Aboleth"@,
            decreases table.rows@.len() - i + (if seen {
                0int
            } else {
                1int
            }),
        {
            proof {
                crate::repo::lemma_views_of_index::<Monster>(table.rows@, i as int);
            }
            if eq_verbatim(table.rows[i].name.as_str(), "Aboleth") {
                seen = true;
            } else {
                i = i + 1;
            }
        }
        if seen {
            proof {
                assert(sentinel_present(table.view_rows()));
            }
            return Ok(());
        }
        let ghost rows0 = table.view_rows();
        let ghost seedv = views_of(monsters@);
        let mut j: usize = 0;
        while j < monsters.len()
            invariant
                j <= monsters@.len(),
                table.created,
                rows0 == old(table).view_rows(),
                seedv == views_of(monsters@),
                table.view_rows().len() == rows0.len() + j,
                table.view_rows().subrange(0, rows0.len() as int) == rows0,
                seeds_match(
                    seedv,
                    table.view_rows().subrange(
                        rows0.len() as int,
                        table.view_rows().len() as int,
                    ),
                ),
            decreases monsters@.len() - j,
        {
            proof {
                crate::repo::lemma_views_of_index::<MonsterFromJson>(monsters@, j as int);
                crate::repo::lemma_views_of_len::<Monster>(table.rows@);
            }
            let ghost pre = table.view_rows();
            let ele = Monster::from_json(monsters[j].duplicate());
            match table.post(&ele) {
                Ok(()) => {
                    proof {
                        assert(table.view_rows() == pre.push(ele@));
                        assert(table.view_rows().subrange(0, rows0.len() as int) =~= pre.subrange(
                            0,
                            rows0.len() as int,
                        ));
                        assert(table.view_rows().subrange(
                            rows0.len() as int,
                            table.view_rows().len() as int,
                        ) =~= pre.subrange(rows0.len() as int, pre.len() as int).push(ele@));
                    }
                },
                Err(e) => {
                    return Err(e);
                },
            }
            j = j + 1;
        }
        proof {
            crate::repo::lemma_views_of_len::<MonsterFromJson>(monsters@);
        }
        Ok(())
    }
}

/// The column identifiers of the reference-data table.
#[derive(Clone, Copy, Debug, PartialEq, Eq, Structural)]
pub enum MonsterModel {
    Table,
    Id,
    Name,
    Meta,
    ArmorClass,
    HitPoints,
    Speed,
    Str,
    Dex,
    Con,
    Int,
    Wis,
    Cha,
    SavingThrows,
    Skills,
    Senses,
    Languages,
    Challenge,
    Traits,
    Actions,
    DamageImmunities,
    ConditionImmunities,
    LegendaryActions,
    ImgUrl,
    UserId,
}

/// The identifier of each column, and of the table itself.
pub open spec fn monster_model_name(m: MonsterModel) -> Seq<char> {
    match m {
        MonsterModel::Table => "monster_model"@,
        MonsterModel::Id => "id"@,
        MonsterModel::Name => "name"@,
        MonsterModel::Meta => "meta"@,
        MonsterModel::ArmorClass => "armor_class"@,
        MonsterModel::HitPoints => "hit_points"@,
        MonsterModel::Speed => "speed"@,
        MonsterModel::Str => "str"@,
        MonsterModel::Dex => "dex"@,
        MonsterModel::Con => "con"@,
        MonsterModel::Int => "int"@,
        MonsterModel::Wis => "wis"@,
        MonsterModel::Cha => "cha"@,
        MonsterModel::SavingThrows => "saving_throws"@,
        MonsterModel::Skills => "skills"@,
        MonsterModel::Senses => "senses"@,
        MonsterModel::Languages => "languages"@,
        MonsterModel::Challenge => "challenge"@,
        MonsterModel::Traits => "traits"@,
        MonsterModel::Actions => "actions"@,
        MonsterModel::DamageImmunities => "damage_immunities"@,
        MonsterModel::ConditionImmunities => "condition_immunities"@,
        MonsterModel::LegendaryActions => "legendary_actions"@,
        MonsterModel::ImgUrl => "img_url"@,
        MonsterModel::UserId => "user_id"@,
    }
}

/// Every data column of the table, in statement order.
pub open spec fn monster_cols_spec() -> Seq<MonsterModel> {
    seq![
        MonsterModel::Id,
        MonsterModel::Name,
        MonsterModel::Meta,
        MonsterModel::ArmorClass,
        MonsterModel::HitPoints,
        MonsterModel::Speed,
        MonsterModel::Str,
        MonsterModel::Dex,
        MonsterModel::Con,
        MonsterModel::Int,
        MonsterModel::Wis,
        MonsterModel::Cha,
        MonsterModel::SavingThrows,
        MonsterModel::Skills,
        MonsterModel::Senses,
        MonsterModel::Languages,
        MonsterModel::Challenge,
        MonsterModel::Traits,
        MonsterModel::Actions,
        MonsterModel::DamageImmunities,
        MonsterModel::ConditionImmunities,
        MonsterModel::LegendaryActions,
        MonsterModel::ImgUrl,
        MonsterModel::UserId,
    ]
}

/// The names of the data columns, in statement order.
pub open spec fn monster_columns_spec() -> Seq<Seq<char>> {
    monster_cols_spec().map_values(|m: MonsterModel| monster_model_name(m))
}

impl MonsterModel {
    /// Every data column of the table, in statement order.
    pub fn cols() -> (r: Vec<Self>)
        ensures
            r@ == monster_cols_spec(),
    {
        let r: Vec<MonsterModel> = vec![
            MonsterModel::Id,
            MonsterModel::Name,
            MonsterModel::Meta,
            MonsterModel::ArmorClass,
            MonsterModel::HitPoints,
            MonsterModel::Speed,
            MonsterModel::Str,
            MonsterModel::Dex,
            MonsterModel::Con,
            MonsterModel::Int,
            MonsterModel::Wis,
            MonsterModel::Cha,
            MonsterModel::SavingThrows,
            MonsterModel::Skills,
            MonsterModel::Senses,
            MonsterModel::Languages,
            MonsterModel::Challenge,
            MonsterModel::Traits,
            MonsterModel::Actions,
            MonsterModel::DamageImmunities,
            MonsterModel::ConditionImmunities,
            MonsterModel::LegendaryActions,
            MonsterModel::ImgUrl,
            MonsterModel::UserId,
        ];
        proof {
            assert(r@ =~= monster_cols_spec());
        }
        r
    }

    /// The identifier this column carries in every statement.
    pub fn name(&self) -> (r: &'static str)
        ensures
            r@ == monster_model_name(*self),
    {
        match self {
            MonsterModel::Table => "monster_model",
            MonsterModel::Id => "id",
            MonsterModel::Name => "name",
            MonsterModel::Meta => "meta",
            MonsterModel::ArmorClass => "armor_class",
            MonsterModel::HitPoints => "hit_points",
            MonsterModel::Speed => "speed",
            MonsterModel::Str => "str",
            MonsterModel::Dex => "dex",
            MonsterModel::Con => "con",
            MonsterModel::Int => "int",
            MonsterModel::Wis => "wis",
            MonsterModel::Cha => "cha",
            MonsterModel::SavingThrows => "saving_throws",
            MonsterModel::Skills => "skills",
            MonsterModel::Senses => "senses",
            MonsterModel::Languages => "languages",
            MonsterModel::Challenge => "challenge",
            MonsterModel::Traits => "traits",
            MonsterModel::Actions => "actions",
            MonsterModel::DamageImmunities => "damage_immunities",
            MonsterModel::ConditionImmunities => "condition_immunities",
            MonsterModel::LegendaryActions => "legendary_actions",
            MonsterModel::ImgUrl => "img_url",
            MonsterModel::UserId => "user_id",
        }
    }
}

/// The reference table's columns as the builders take them.
pub fn monster_columns() -> (r: Vec<&'static str>)
    ensures
        names_of(r@) == monster_columns_spec(),
        r@.len() == 24,
{
    let cols = MonsterModel::cols();
    let mut r: Vec<&'static str> = Vec::new();
    let mut i: usize = 0;
    while i < cols.len()
        invariant
            i <= cols@.len(),
            cols@ == monster_cols_spec(),
            r@.len() == i,
            forall|k: int| 0 <= k < i ==> r@[k]@ == monster_model_name(cols@[k]),
        decreases cols@.len() - i,
    {
        r.push(cols[i].name());
        i = i + 1;
    }
    proof {
        assert(names_of(r@) =~= monster_columns_spec());
    }
    r
}

/// The statement that fetches one reference record by identifier.
pub fn monster_by_id_stmt(id: u128) -> (r: (String, sea_query_binder::SqlxValues))
    ensures
        r.0@ == select_sql("monster_model"@, monster_columns_spec(), "id"@, Some(1)),
        binds_of(r.1) == seq![DbValueV::Id(id), DbValueV::Count(1)],
{
    build_select("monster_model", &monster_columns(), "id", DbValue::Id(id), Some(1))
}

/// The statement that fetches every reference record.
pub fn all_monsters_stmt() -> (r: (String, sea_query_binder::SqlxValues))
    ensures
        r.0@ == select_all_sql("monster_model"@, monster_columns_spec()),
        binds_of(r.1) == Seq::<DbValueV>::empty(),
{
    build_select_all("monster_model", &monster_columns())
}

/// The statement that probes for the sentinel record of the seed import.
pub fn seed_check_stmt() -> (r: (String, sea_query_binder::SqlxValues))
    ensures
        r.0@ == select_sql("monster_model"@, monster_columns_spec(), "name"@, None),
        binds_of(r.1) == seq![DbValueV::Str(Some("Aboleth"@))],
{
    build_select(
        "monster_model",
        &monster_columns(),
        "name",
        DbValue::Text(String::from_str("Aboleth")),
        None,
    )
}

/// The values one reference record binds, in column order: the identifier
/// and owner as uuids, the six ability scores as small integers, the
/// challenge rating as its decimal text (matching its text column),
/// everything else as its text.
pub open spec fn monster_binds(m: MonsterV) -> Seq<DbValueV> {
    seq![
        DbValueV::Id(m.id),
        DbValueV::Str(Some(m.name)),
        DbValueV::Str(Some(m.meta)),
        DbValueV::Str(Some(m.armor_class)),
        DbValueV::Str(Some(m.hit_points)),
        DbValueV::Str(Some(m.speed)),
        DbValueV::Small(m.str),
        DbValueV::Small(m.dex),
        DbValueV::Small(m.con),
        DbValueV::Small(m.int),
        DbValueV::Small(m.wis),
        DbValueV::Small(m.cha),
        DbValueV::Str(Some(m.saving_throws)),
        DbValueV::Str(Some(m.skills)),
        DbValueV::Str(Some(m.senses)),
        DbValueV::Str(Some(m.languages)),
        DbValueV::Str(Some(challenge_text(m.challenge as nat))),
        DbValueV::Str(m.traits),
        DbValueV::Str(Some(m.actions)),
        DbValueV::Str(m.damage_immunities),
        DbValueV::Str(m.condition_immunities),
        DbValueV::Str(m.legendary_actions),
        DbValueV::Str(Some(m.img_url)),
        DbValueV::Id(m.user_id),
    ]
}

/// The statement that appends one reference record.
pub fn insert_monster_stmt(model: &Monster) -> (r: Result<
    (String, sea_query_binder::SqlxValues),
    String,
>)
    ensures
        r is Ok,
        r is Ok ==> r->Ok_0.0@ == insert_sql("monster_model"@, monster_columns_spec())
            && binds_of(r->Ok_0.1) == monster_binds(model@),
{
    let vals: Vec<DbValue> = vec![
        DbValue::Id(model.id),
        DbValue::Text(model.name.clone()),
        DbValue::Text(model.meta.clone()),
        DbValue::Text(model.armor_class.clone()),
        DbValue::Text(model.hit_points.clone()),
        DbValue::Text(model.speed.clone()),
        DbValue::Small(model.str),
        DbValue::Small(model.dex),
        DbValue::Small(model.con),
        DbValue::Small(model.int),
        DbValue::Small(model.wis),
        DbValue::Small(model.cha),
        DbValue::Text(model.saving_throws.clone()),
        DbValue::Text(model.skills.clone()),
        DbValue::Text(model.senses.clone()),
        DbValue::Text(model.languages.clone()),
        DbValue::Text(challenge_to_text(model.challenge)),
        DbValue::MaybeText(opt_dup(&model.traits)),
        DbValue::Text(model.actions.clone()),
        DbValue::MaybeText(opt_dup(&model.damage_immunities)),
        DbValue::MaybeText(opt_dup(&model.condition_immunities)),
        DbValue::MaybeText(opt_dup(&model.legendary_actions)),
        DbValue::Text(model.img_url.clone()),
        DbValue::Id(model.user_id),
    ];
    proof {
        assert(views_of(vals@) =~= monster_binds(model@));
    }
    build_insert("monster_model", &monster_columns(), vals)
}

/// The statement that removes the reference records matching an
/// identifier.
pub fn delete_monster_stmt(id: u128) -> (r: (String, sea_query_binder::SqlxValues))
    ensures
        r.0@ == delete_sql("monster_model"@, "id"@),
        binds_of(r.1) == seq![DbValueV::Id(id)],
{
    build_delete("monster_model", "id", DbValue::Id(id))
}

/// The statement that overwrites the mutable fields of the reference
/// records matching an identifier.
pub fn update_monster_stmt(id: u128, model: &Monster) -> (r: (
    String,
    sea_query_binder::SqlxValues,
))
    ensures
        r.0@ == update_sql(
            "monster_model"@,
            monster_columns_spec().subrange(1, 24),
            "id"@,
        ),
        binds_of(r.1) == monster_binds(model@).subrange(1, 24).push(DbValueV::Id(id)),
{
    let all_cols = monster_columns();
    let mut cols: Vec<&'static str> = Vec::new();
    let mut i: usize = 1;
    while i < 24
        invariant
            1 <= i <= 24,
            all_cols@.len() == 24,
            names_of(all_cols@) == monster_columns_spec(),
            cols@.len() == i - 1,
            forall|k: int| 0 <= k < i - 1 ==> cols@[k]@ == monster_columns_spec()[k + 1],
        decreases 24 - i,
    {
        cols.push(all_cols[i]);
        i = i + 1;
    }
    let vals: Vec<DbValue> = vec![
        DbValue::Text(model.name.clone()),
        DbValue::Text(model.meta.clone()),
        DbValue::Text(model.armor_class.clone()),
        DbValue::Text(model.hit_points.clone()),
        DbValue::Text(model.speed.clone()),
        DbValue::Small(model.str),
        DbValue::Small(model.dex),
        DbValue::Small(model.con),
        DbValue::Small(model.int),
        DbValue::Small(model.wis),
        DbValue::Small(model.cha),
        DbValue::Text(model.saving_throws.clone()),
        DbValue::Text(model.skills.clone()),
        DbValue::Text(model.senses.clone()),
        DbValue::Text(model.languages.clone()),
        DbValue::Text(challenge_to_text(model.challenge)),
        DbValue::MaybeText(opt_dup(&model.traits)),
        DbValue::Text(model.actions.clone()),
        DbValue::MaybeText(opt_dup(&model.damage_immunities)),
        DbValue::MaybeText(opt_dup(&model.condition_immunities)),
        DbValue::MaybeText(opt_dup(&model.legendary_actions)),
        DbValue::Text(model.img_url.clone()),
        DbValue::Id(model.user_id),
    ];
    proof {
        assert(names_of(cols@) =~= monster_columns_spec().subrange(1, 24));
        assert(views_of(vals@) =~= monster_binds(model@).subrange(1, 24));
    }
    build_update("monster_model", &cols, vals, "id", DbValue::Id(id))
}

/// The columns of the reference table's schema object, in creation order.
pub open spec fn monsters_schema() -> Seq<ColumnSpecV> {
    seq![
        (ColumnSpecV { name: "id"@, kind: ColKind::Identifier, required: true, primary: true }),
        (ColumnSpecV { name: "name"@, kind: ColKind::Text, required: true, primary: false }),
        (ColumnSpecV { name: "meta"@, kind: ColKind::Text, required: true, primary: false }),
        (ColumnSpecV { name: "armor_class"@, kind: ColKind::Text, required: true, primary: false }),
        (ColumnSpecV { name: "hit_points"@, kind: ColKind::Text, required: true, primary: false }),
        (ColumnSpecV { name: "speed"@, kind: ColKind::Text, required: true, primary: false }),
        (ColumnSpecV { name: "str"@, kind: ColKind::Whole, required: true, primary: false }),
        (ColumnSpecV { name: "dex"@, kind: ColKind::Whole, required: true, primary: false }),
        (ColumnSpecV { name: "con"@, kind: ColKind::Whole, required: true, primary: false }),
        (ColumnSpecV { name: "int"@, kind: ColKind::Whole, required: true, primary: false }),
        (ColumnSpecV { name: "wis"@, kind: ColKind::Whole, required: true, primary: false }),
        (ColumnSpecV { name: "cha"@, kind: ColKind::Whole, required: true, primary: false }),
        (ColumnSpecV { name: "saving_throws"@, kind: ColKind::Text, required: true, primary: false }),
        (ColumnSpecV { name: "skills"@, kind: ColKind::Text, required: true, primary: false }),
        (ColumnSpecV { name: "senses"@, kind: ColKind::Text, required: true, primary: false }),
        (ColumnSpecV { name: "languages"@, kind: ColKind::Text, required: true, primary: false }),
        (ColumnSpecV { name: "challenge"@, kind: ColKind::Text, required: true, primary: false }),
        (ColumnSpecV { name: "actions"@, kind: ColKind::Text, required: true, primary: false }),
        (ColumnSpecV { name: "traits"@, kind: ColKind::Text, required: false, primary: false }),
        (ColumnSpecV { name: "legendary_actions"@, kind: ColKind::Text, required: false, primary: false }),
        (ColumnSpecV { name: "condition_immunities"@, kind: ColKind::Text, required: false, primary: false }),
        (ColumnSpecV { name: "damage_immunities"@, kind: ColKind::Text, required: false, primary: false }),
        (ColumnSpecV { name: "img_url"@, kind: ColKind::Text, required: true, primary: false }),
        (ColumnSpecV { name: "user_id"@, kind: ColKind::Identifier, required: true, primary: false }),
    ]
}

/// The foreign key that ties each reference record to its owning
/// identity, cascading on delete and update.
pub open spec fn monsters_fk() -> FkSpecV {
    FkSpecV { name: "FK_User"@, from_col: "user_id"@, to_table: "user_model"@, to_col: "id"@ }
}

/// The statement that creates the reference table if absent.
pub fn create_monsters_table_stmt() -> (r: String)
    ensures
        r@ == create_table_sql("monster_model"@, monsters_schema(), Some(monsters_fk())),
{
    let cols: Vec<ColumnSpec> = vec![
        ColumnSpec { name: "id", kind: ColKind::Identifier, required: true, primary: true },
        ColumnSpec { name: "name", kind: ColKind::Text, required: true, primary: false },
        ColumnSpec { name: "meta", kind: ColKind::Text, required: true, primary: false },
        ColumnSpec { name: "armor_class", kind: ColKind::Text, required: true, primary: false },
        ColumnSpec { name: "hit_points", kind: ColKind::Text, required: true, primary: false },
        ColumnSpec { name: "speed", kind: ColKind::Text, required: true, primary: false },
        ColumnSpec { name: "str", kind: ColKind::Whole, required: true, primary: false },
        ColumnSpec { name: "dex", kind: ColKind::Whole, required: true, primary: false },
        ColumnSpec { name: "con", kind: ColKind::Whole, required: true, primary: false },
        ColumnSpec { name: "int", kind: ColKind::Whole, required: true, primary: false },
        ColumnSpec { name: "wis", kind: ColKind::Whole, required: true, primary: false },
        ColumnSpec { name: "cha", kind: ColKind::Whole, required: true, primary: false },
        ColumnSpec { name: "saving_throws", kind: ColKind::Text, required: true, primary: false },
        ColumnSpec { name: "skills", kind: ColKind::Text, required: true, primary: false },
        ColumnSpec { name: "senses", kind: ColKind::Text, required: true, primary: false },
        ColumnSpec { name: "languages", kind: ColKind::Text, required: true, primary: false },
        ColumnSpec { name: "challenge", kind: ColKind::Text, required: true, primary: false },
        ColumnSpec { name: "actions", kind: ColKind::Text, required: true, primary: false },
        ColumnSpec { name: "traits", kind: ColKind::Text, required: false, primary: false },
        ColumnSpec { name: "legendary_actions", kind: ColKind::Text, required: false, primary: false },
        ColumnSpec { name: "condition_immunities", kind: ColKind::Text, required: false, primary: false },
        ColumnSpec { name: "damage_immunities", kind: ColKind::Text, required: false, primary: false },
        ColumnSpec { name: "img_url", kind: ColKind::Text, required: true, primary: false },
        ColumnSpec { name: "user_id", kind: ColKind::Identifier, required: true, primary: false },
    ];
    proof {
        assert(views_of(cols@) =~= monsters_schema());
    }
    build_create_table(
        "monster_model",
        &cols,
        Some(FkSpec { name: "FK_User", from_col: "user_id", to_table: "user_model", to_col: "id" }),
    )
}

} // verus!
