use vstd::prelude::*;

verus! {

/// The items that a soup kit is made of.
#[derive(Clone, Copy, Debug, PartialEq, Eq)]
pub enum KitItem {
    StoneSword,
    Bowl,
    RedMushroom,
    BrownMushroom,
    MushroomStew,
}

/// Put `count` of `item` into inventory slot `slot`, replacing what was there.
#[derive(Clone, Copy, Debug, PartialEq, Eq)]
pub struct SlotFill {
    pub slot: i16,
    pub item: KitItem,
    pub count: u8,
}

/// The number of inventory slots that are filled with stew.
pub const SOUP_SLOTS: i16 = 35;

/// One stew into slot `i`.
pub open spec fn soup_fill(i: int) -> SlotFill {
    SlotFill { slot: i as i16, item: KitItem::MushroomStew, count: 1 }
}

/// The recraft amount bounded to a stack of 64.
pub open spec fn recraft_stack(v: u8) -> u8 {
    if v > 64 {
        64
    } else {
        v
    }
}

/// The fills that give a kit, in order: stew into slots 0 to 34, then with a
/// positive recraft amount bowls, red and brown mushrooms into slots 13, 14
/// and 15, and last the sword into slot 0.
pub open spec fn kit_fills(recraft: u8) -> Seq<SlotFill> {
    let soups = Seq::new(SOUP_SLOTS as nat, |i: int| soup_fill(i));
    let sword = SlotFill { slot: 0, item: KitItem::StoneSword, count: 1 };
    if recraft > 0 {
        let c = recraft_stack(recraft);
        soups + seq![
            SlotFill { slot: 13, item: KitItem::Bowl, count: c },
            SlotFill { slot: 14, item: KitItem::RedMushroom, count: c },
            SlotFill { slot: 15, item: KitItem::BrownMushroom, count: c },
            sword,
        ]
    } else {
        soups.push(sword)
    }
}

/// The slots that a list of fills leaves filled, each with what was put there last.
pub open spec fn apply_fills(fills: Seq<SlotFill>) -> Map<int, (KitItem, u8)>
    decreases fills.len(),
{
    if fills.len() == 0 {
        Map::empty()
    } else {
        let f = fills.last();
        apply_fills(fills.drop_last()).insert(f.slot as int, (f.item, f.count))
    }
}

/// What a kit leaves in slots 0 to 34: the sword in slot 0, with a positive
/// recraft amount the recraft items in slots 13 to 15, stew everywhere else.
pub open spec fn kit_layout(recraft: u8) -> Map<int, (KitItem, u8)> {
    Map::new(
        |s: int| 0 <= s < SOUP_SLOTS,
        |s: int|
            if s == 0 {
                (KitItem::StoneSword, 1u8)
            } else if recraft > 0 && s == 13 {
                (KitItem::Bowl, recraft_stack(recraft))
            } else if recraft > 0 && s == 14 {
                (KitItem::RedMushroom, recraft_stack(recraft))
            } else if recraft > 0 && s == 15 {
                (KitItem::BrownMushroom, recraft_stack(recraft))
            } else {
                (KitItem::MushroomStew, 1u8)
            },
    )
}

/// The fills that give a player a soup kit with the given recraft amount;
/// none without an amount.
pub fn give_kit(recraft_amount: Option<u8>) -> (res: Option<Vec<SlotFill>>)
    ensures
        match recraft_amount {
            None => res is None,
            Some(v) => res matches Some(p) && p@ == kit_fills(v),
        },
        match recraft_amount {
            Some(v) => v > 0 ==> (res matches Some(p) && {
                &&& p@.len() == SOUP_SLOTS + 4
                &&& p@[35].slot == 13 && p@[36].slot == 14 && p@[37].slot == 15
                &&& p@[35].count == p@[36].count && p@[36].count == p@[37].count
                &&& v <= 64 ==> p@[35].count == v
                &&& v > 64 ==> p@[35].count == 64
            }),
            None => true,
        },
{
    match recraft_amount {
        None => None,
        Some(v) => {
            let mut fills: Vec<SlotFill> = Vec::new();
            let mut i: i16 = 0;
            while i < SOUP_SLOTS
                invariant
                    0 <= i <= SOUP_SLOTS,
                    fills@ == Seq::new(i as nat, |k: int| soup_fill(k)),
                decreases SOUP_SLOTS - i,
            {
                fills.push(SlotFill { slot: i, item: KitItem::MushroomStew, count: 1 });
                i = i + 1;
                assert(fills@ =~= Seq::new(i as nat, |k: int| soup_fill(k)));
            }
            let sword = SlotFill { slot: 0, item: KitItem::StoneSword, count: 1 };
            if v > 0 {
                let amount = if v > 64 {
                    64
                } else {
                    v
                };
                fills.push(SlotFill { slot: 13, item: KitItem::Bowl, count: amount });
                fills.push(SlotFill { slot: 14, item: KitItem::RedMushroom, count: amount });
                fills.push(SlotFill { slot: 15, item: KitItem::BrownMushroom, count: amount });
                fills.push(sword);
            } else {
                fills.push(sword);
            }
            assert(fills@ =~= kit_fills(v));
            Some(fills)
        },
    }
}

/// Applying the first `k` stew fills leaves stew in slots 0 to k - 1.
proof fn lemma_soups_applied(k: nat)
    requires
        k <= SOUP_SLOTS,
    ensures
        apply_fills(Seq::new(k, |i: int| soup_fill(i))) == Map::new(
            |s: int| 0 <= s < k,
            |s: int| (KitItem::MushroomStew, 1u8),
        ),
    decreases k,
{
    let soups = Seq::new(k, |i: int| soup_fill(i));
    if k == 0 {
        assert(apply_fills(soups) =~= Map::new(
            |s: int| 0 <= s < k,
            |s: int| (KitItem::MushroomStew, 1u8),
        ));
    } else {
        lemma_soups_applied((k - 1) as nat);
        assert(soups.drop_last() =~= Seq::new((k - 1) as nat, |i: int| soup_fill(i)));
        assert(apply_fills(soups) =~= Map::new(
            |s: int| 0 <= s < k,
            |s: int| (KitItem::MushroomStew, 1u8),
        ));
    }
}

/// Giving a kit leaves exactly the kit layout in slots 0 to 34: the sword in
/// slot 0, with a positive recraft amount bowls, red and brown mushrooms
/// (at most 64 each) in slots 13 to 15, and stew in every other slot.
pub proof fn lemma_kit_layout(recraft: u8)
    ensures
        apply_fills(kit_fills(recraft)) == kit_layout(recraft),
{
    let soups = Seq::new(SOUP_SLOTS as nat, |i: int| soup_fill(i));
    lemma_soups_applied(SOUP_SLOTS as nat);
    let base = Map::new(|s: int| 0 <= s < SOUP_SLOTS, |s: int| (KitItem::MushroomStew, 1u8));
    let fills = kit_fills(recraft);
    let c = recraft_stack(recraft);
    if recraft > 0 {
        assert(fills.drop_last().drop_last().drop_last().drop_last() =~= soups);
        let m1 = base.insert(13, (KitItem::Bowl, c));
        let m2 = m1.insert(14, (KitItem::RedMushroom, c));
        let m3 = m2.insert(15, (KitItem::BrownMushroom, c));
        let m4 = m3.insert(0, (KitItem::StoneSword, 1u8));
        assert(apply_fills(fills.drop_last().drop_last().drop_last()) == m1);
        assert(apply_fills(fills.drop_last().drop_last()) == m2);
        assert(apply_fills(fills.drop_last()) == m3);
        assert(apply_fills(fills) == m4);
        assert(m4 =~= kit_layout(recraft));
    } else {
        assert(fills.drop_last() =~= soups);
        assert(apply_fills(fills) =~= kit_layout(recraft));
    }
}


/// `c` is one of the ASCII digits `0`..`9`.
pub open spec fn is_ascii_digit(c: char) -> bool {
    48 <= c as u32 && c as u32 <= 57
}

/// The value of a string of ASCII digits read in base 10.
pub open spec fn decimal_value(d: Seq<char>) -> nat
    decreases d.len(),
{
    if d.len() == 0 {
        0
    } else {
        decimal_value(d.drop_last()) * 10 + ((d.last() as u32 - 48) as nat)
    }
}

/// The digits of an unsigned number: the string without one leading `+`.
pub open spec fn unsigned_digits(s: Seq<char>) -> Seq<char> {
    if s.len() > 0 && s[0] == '+' {
        s.drop_first()
    } else {
        s
    }
}

/// What `str::parse::<u8>` gives: an optional `+` followed by at least one
/// ASCII digit and nothing else, whose value is at most 255.
pub open spec fn u8_from_str(s: Seq<char>) -> Option<u8> {
    let d = unsigned_digits(s);
    if d.len() > 0 && (forall|i: int| 0 <= i < d.len() ==> is_ascii_digit(#[trigger] d[i]))
        && decimal_value(d) <= 255 {
        Some(decimal_value(d) as u8)
    } else {
        None
    }
}

/// `<u8 as FromStr>::from_str` (std), reached through `str::parse`. Its
/// documentation: an optional `+` sign followed by digits only; any other
/// character, an empty string or a value above `u8::MAX` is an error.
#[verifier::external_body]
pub(crate) fn parse_u8(s: &str) -> (res: Option<u8>)
    ensures
        res == u8_from_str(s@),
{
    s.parse::<u8>().ok()
}

/// The recraft argument of the soup command was no number from 0 to 64.
#[derive(Clone, Copy, Debug, PartialEq, Eq)]
pub struct InvalidRecraftAmount;

/// The recraft amount that an argument names: a `u8` of at most 64.
pub open spec fn recraft_amount_of(s: Seq<char>) -> Option<u8> {
    match u8_from_str(s) {
        Some(n) => if n <= 64 {
            Some(n)
        } else {
            None
        },
        None => None,
    }
}

/// Reads the recraft argument of the soup command.
pub fn parse_recraft_amount(arg: &str) -> (res: Result<u8, InvalidRecraftAmount>)
    ensures
        match recraft_amount_of(arg@) {
            Some(n) => res == Ok::<u8, InvalidRecraftAmount>(n),
            None => res == Err::<u8, InvalidRecraftAmount>(InvalidRecraftAmount),
        },
        res is Ok <==> (u8_from_str(arg@) matches Some(n) && n <= 64),
        match u8_from_str(arg@) {
            Some(n) => n <= 64 ==> res == Ok::<u8, InvalidRecraftAmount>(n),
            None => true,
        },
{
    match parse_u8(arg) {
        Some(n) => {
            if n > 64 {
                Err(InvalidRecraftAmount)
            } else {
                Ok(n)
            }
        },
        None => Err(InvalidRecraftAmount),
    }
}


/// With a positive recraft amount, the kit leaves in each of slots 13, 14 and 15
/// exactly the amount when it is at most 64, and a full stack of 64 above that;
/// bowls in 13, red mushrooms in 14, brown mushrooms in 15.
pub proof fn lemma_recraft_stacks(v: u8)
    requires
        1 <= v,
    ensures
        ({
            let layout = apply_fills(kit_fills(v));
            let c: u8 = if v <= 64 { v } else { 64 };
            &&& layout[13] == (KitItem::Bowl, c)
            &&& layout[14] == (KitItem::RedMushroom, c)
            &&& layout[15] == (KitItem::BrownMushroom, c)
            &&& layout[0] == (KitItem::StoneSword, 1u8)
        }),
{
    lemma_kit_layout(v);
}

/// Without recraft amount the kit is stew everywhere but the sword in slot 0.
pub proof fn lemma_no_recraft_kit(s: int)
    requires
        0 < s < SOUP_SLOTS,
    ensures
        apply_fills(kit_fills(0)).contains_key(s),
        apply_fills(kit_fills(0))[s] == (KitItem::MushroomStew, 1u8),
        apply_fills(kit_fills(0))[0] == (KitItem::StoneSword, 1u8),
{
    lemma_kit_layout(0);
}

/// The recraft argument is accepted exactly when `str::parse::<u8>` reads it as
/// a number of at most 64, and then it is that number.
pub proof fn lemma_recraft_accepts_parsed_up_to_64(s: Seq<char>, n: u8)
    ensures
        recraft_amount_of(s) == Some(n) <==> (u8_from_str(s) == Some(n) && n <= 64),
        recraft_amount_of(s) is None <==> (u8_from_str(s) is None || u8_from_str(s)->Some_0 > 64),
{
}

} // verus!
