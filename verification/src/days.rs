use vstd::prelude::*;

verus! {

/// chrono's day of the week. Its seven variants, Monday to Sunday, are read
/// from chrono itself; nothing more is taken for granted of it.
#[verifier::external_type_specification]
pub struct ExWeekday(chrono::Weekday);

/// The days of the week on which an alarm is active, one bit per day:
/// bit 0 is Monday, bit 6 is Sunday. Bit 7 stands for no day.
#[derive(Debug, Copy, Clone, PartialEq, Eq, PartialOrd, Ord, Structural)]
pub struct ActiveDays(pub u8);

/// The bit that stands for the day with the given index, Monday being 0.
pub open spec fn day_bit(day: int) -> u8 {
    if day == 0 {
        0x01
    } else if day == 1 {
        0x02
    } else if day == 2 {
        0x04
    } else if day == 3 {
        0x08
    } else if day == 4 {
        0x10
    } else if day == 5 {
        0x20
    } else if day == 6 {
        0x40
    } else {
        0x00
    }
}

/// Of the first `n` items, those whose day is set in `mask`, in their order.
pub open spec fn selected<T>(mask: u8, items: Seq<T>, n: nat) -> Seq<T>
    decreases n,
{
    if n == 0 {
        Seq::empty()
    } else if mask & day_bit(n - 1) != 0 {
        selected(mask, items, (n - 1) as nat).push(items[n - 1])
    } else {
        selected(mask, items, (n - 1) as nat)
    }
}

/// The names of the seven weekdays, Monday first.
pub open spec fn day_names() -> Seq<Seq<char>> {
    seq![
        "Monday"@,
        "Tuesday"@,
        "Wednesday"@,
        "Thursday"@,
        "Friday"@,
        "Saturday"@,
        "Sunday"@,
    ]
}

/// The names of the days that are set in `mask`, Monday first.
pub open spec fn names_of(mask: u8) -> Seq<Seq<char>> {
    selected(mask, day_names(), 7)
}

/// The bit that a name stands for; a name that is no weekday stands for none.
pub open spec fn name_bit(name: Seq<char>) -> u8 {
    if name == "Monday"@ {
        0x01
    } else if name == "Tuesday"@ {
        0x02
    } else if name == "Wednesday"@ {
        0x04
    } else if name == "Thursday"@ {
        0x08
    } else if name == "Friday"@ {
        0x10
    } else if name == "Saturday"@ {
        0x20
    } else if name == "Sunday"@ {
        0x40
    } else {
        0x00
    }
}

/// The bits of all the names in a list, whatever their order.
pub open spec fn mask_of(names: Seq<Seq<char>>) -> u8
    decreases names.len(),
{
    if names.len() == 0 {
        0
    } else {
        mask_of(names.drop_last()) | name_bit(names.last())
    }
}

/// The texts of a list of strings.
pub open spec fn texts(names: Seq<String>) -> Seq<Seq<char>> {
    names.map_values(|name: String| name@)
}

/// The seven weekdays, Monday first.
pub open spec fn weekdays() -> Seq<chrono::Weekday> {
    seq![
        chrono::Weekday::Mon,
        chrono::Weekday::Tue,
        chrono::Weekday::Wed,
        chrono::Weekday::Thu,
        chrono::Weekday::Fri,
        chrono::Weekday::Sat,
        chrono::Weekday::Sun,
    ]
}

/// The index of a weekday, Monday being 0.
pub open spec fn weekday_index(day: chrono::Weekday) -> int {
    match day {
        chrono::Weekday::Mon => 0,
        chrono::Weekday::Tue => 1,
        chrono::Weekday::Wed => 2,
        chrono::Weekday::Thu => 3,
        chrono::Weekday::Fri => 4,
        chrono::Weekday::Sat => 5,
        chrono::Weekday::Sun => 6,
    }
}

impl ActiveDays {
    /// Whether the day with the given index (Monday being 0) is active.
    pub open spec fn has(self, day: int) -> bool {
        self.0 & day_bit(day) != 0
    }

    /// Whether the given weekday is active.
    pub fn contains(&self, day: chrono::Weekday) -> (active: bool)
        ensures
            active == self.has(weekday_index(day)),
    {
        let bit: u8 = match day {
            chrono::Weekday::Mon => 0x01,
            chrono::Weekday::Tue => 0x02,
            chrono::Weekday::Wed => 0x04,
            chrono::Weekday::Thu => 0x08,
            chrono::Weekday::Fri => 0x10,
            chrono::Weekday::Sat => 0x20,
            chrono::Weekday::Sun => 0x40,
        };
        self.0 & bit != 0
    }

    /// Picks from `src_vec` the items that stand at the index of an active
    /// day. Items from the eighth on are never picked.
    pub fn as_vec<T: Copy>(&self, src_vec: &Vec<T>) -> (picked: Vec<T>)
        ensures
            picked@ == selected(
                self.0,
                src_vec@,
                if src_vec.len() < 7 {
                    src_vec.len() as nat
                } else {
                    7
                },
            ),
    {
        let mut days_vec: Vec<T> = Vec::new();
        let mut mask: u8 = 0x01;
        let limit: usize = if src_vec.len() < 7 {
            src_vec.len()
        } else {
            7
        };
        let mut i: usize = 0;
        while i < limit
            invariant
                i <= limit <= 7,
                limit <= src_vec.len(),
                i < 7 ==> mask == day_bit(i as int),
                days_vec@ == selected(self.0, src_vec@, i as nat),
            decreases limit - i,
        {
            if self.0 & mask > 0 {
                days_vec.push(src_vec[i]);
            }
            assert(mask << 1u8 == day_bit(i + 1) || i + 1 == 7) by (bit_vector)
                requires
                    i < 7,
                    mask == day_bit(i as int),
            ;
            mask = mask << 1u8;
            i = i + 1;
        }
        days_vec
    }

    /// The names of the active days, Monday first.
    pub fn to_day_strings_vec(self) -> (names: Vec<String>)
        ensures
            texts(names@) == names_of(self.0),
    {
        let days_strings: Vec<&'static str> = vec![
            "Monday",
            "Tuesday",
            "Wednesday",
            "Thursday",
            "Friday",
            "Saturday",
            "Sunday",
        ];
        let picked = self.as_vec(&days_strings);
        let ghost view_of = |name: &'static str| name@;
        proof {
            assert(days_strings@.map_values(view_of) =~= day_names());
            lemma_selected_map(self.0, days_strings@, view_of, 7);
        }
        let mut names: Vec<String> = Vec::new();
        let mut i: usize = 0;
        while i < picked.len()
            invariant
                i <= picked.len(),
                names.len() == i,
                forall|k: int| 0 <= k < i ==> names[k]@ == picked[k]@,
            decreases picked.len() - i,
        {
            names.push(picked[i].to_owned());
            i = i + 1;
        }
        assert(texts(names@) =~= picked@.map_values(view_of));
        names
    }

    /// The bit of one name, given the seven names of the week.
    fn bit_of_name(name: &String, week: &Vec<String>) -> (bit: u8)
        requires
            texts(week@) == day_names(),
        ensures
            bit == name_bit(name@),
    {
        assert(texts(week@).len() == week.len() && day_names().len() == 7);
        assert(forall|d: int| 0 <= d < 7 ==> week[d]@ == #[trigger] texts(week@)[d]);
        if *name == week[0] {
            0x01
        } else if *name == week[1] {
            0x02
        } else if *name == week[2] {
            0x04
        } else if *name == week[3] {
            0x08
        } else if *name == week[4] {
            0x10
        } else if *name == week[5] {
            0x20
        } else if *name == week[6] {
            0x40
        } else {
            0x00
        }
    }

    /// Reads a list of weekday names, of any length. A name that is no
    /// weekday sets no bit, and a name given twice sets its bit once.
    pub fn from_day_strings(names: &Vec<String>) -> (days: ActiveDays)
        ensures
            days.0 == mask_of(texts(names@)),
    {
        let week = ActiveDays(0x7F).to_day_strings_vec();
        proof {
            lemma_all_days();
        }
        let mut value: u8 = 0;
        let mut i: usize = 0;
        while i < names.len()
            invariant
                i <= names.len(),
                texts(week@) == day_names(),
                value == mask_of(texts(names@).take(i as int)),
            decreases names.len() - i,
        {
            let bit = Self::bit_of_name(&names[i], &week);
            proof {
                let read = texts(names@).take(i + 1);
                assert(read.drop_last() =~= texts(names@).take(i as int));
                assert(read.last() == names[i as int]@);
            }
            value = value | bit;
            i = i + 1;
        }
        assert(texts(names@).take(names.len() as int) =~= texts(names@));
        ActiveDays(value)
    }

    /// The active days as calendar weekdays, Monday first.
    pub fn to_weekdays(&self) -> (days: Vec<chrono::Weekday>)
        ensures
            days@ == selected(self.0, weekdays(), 7),
    {
        let days_chrono = vec![
            chrono::Weekday::Mon,
            chrono::Weekday::Tue,
            chrono::Weekday::Wed,
            chrono::Weekday::Thu,
            chrono::Weekday::Fri,
            chrono::Weekday::Sat,
            chrono::Weekday::Sun,
        ];
        assert(days_chrono@ =~= weekdays());
        self.as_vec(&days_chrono)
    }
}

/// Picking by mask and then mapping is mapping and then picking.
pub proof fn lemma_selected_map<A, B>(mask: u8, items: Seq<A>, f: spec_fn(A) -> B, n: nat)
    requires
        n <= items.len(),
    ensures
        selected(mask, items, n).map_values(f) == selected(mask, items.map_values(f), n),
    decreases n,
{
    if n > 0 {
        lemma_selected_map(mask, items, f, (n - 1) as nat);
        let before = selected(mask, items, (n - 1) as nat);
        if mask & day_bit(n - 1) != 0 {
            assert(before.push(items[n - 1]).map_values(f) =~= before.map_values(f).push(
                f(items[n - 1]),
            ));
        }
    } else {
        assert(selected(mask, items, n).map_values(f) =~= Seq::<B>::empty());
    }
}

/// What is picked from the first `n` items are the items at the index of an
/// active day, and no others.
pub proof fn lemma_selected_contains<T>(mask: u8, items: Seq<T>, n: nat, item: T)
    requires
        n <= items.len(),
    ensures
        selected(mask, items, n).contains(item) <==> exists|day: int|
            0 <= day < n && mask & day_bit(day) != 0 && #[trigger] items[day] == item,
    decreases n,
{
    if n > 0 {
        lemma_selected_contains(mask, items, (n - 1) as nat, item);
        let before = selected(mask, items, (n - 1) as nat);
        if mask & day_bit(n - 1) != 0 {
            let now = before.push(items[n - 1]);
            assert(now.contains(item) <==> before.contains(item) || items[n - 1] == item) by {
                if before.contains(item) {
                    let at = choose|at: int| 0 <= at < before.len() && before[at] == item;
                    assert(now[at] == item);
                }
                if items[n - 1] == item {
                    assert(now[before.len() as int] == item);
                }
            }
        }
    }
}

/// A weekday is among the listed weekdays of a mask exactly if its bit is
/// set.
pub proof fn lemma_listed_weekdays(days: ActiveDays, day: chrono::Weekday)
    ensures
        selected(days.0, weekdays(), 7).contains(day) <==> days.has(weekday_index(day)),
{
    lemma_selected_contains(days.0, weekdays(), 7, day);
    assert(weekdays()[weekday_index(day)] == day);
    assert(forall|d: int| 0 <= d < 7 && #[trigger] weekdays()[d] == day ==> d == weekday_index(day));
}

/// The mask with all seven days set names the whole week.
pub proof fn lemma_all_days()
    ensures
        names_of(0x7F) == day_names(),
{
    assert(0x7Fu8 & 0x01 != 0 && 0x7Fu8 & 0x02 != 0 && 0x7Fu8 & 0x04 != 0 && 0x7Fu8 & 0x08 != 0
        && 0x7Fu8 & 0x10 != 0 && 0x7Fu8 & 0x20 != 0 && 0x7Fu8 & 0x40 != 0) by (bit_vector);
    reveal_with_fuel(selected, 8);
    assert(names_of(0x7F) =~= day_names());
}

/// The bits below the day with the given index.
pub open spec fn days_before(day: int) -> u8 {
    if day <= 0 {
        0x00
    } else if day == 1 {
        0x01
    } else if day == 2 {
        0x03
    } else if day == 3 {
        0x07
    } else if day == 4 {
        0x0F
    } else if day == 5 {
        0x1F
    } else if day == 6 {
        0x3F
    } else {
        0x7F
    }
}

proof fn lemma_day_by_day(m: u8)
    by (bit_vector)
    ensures
        m & 0x00 == 0,
        (m & 0x00) | 0x00 == m & 0x00,
        m & 0x01 != 0 ==> (m & 0x00) | 0x01 == m & 0x01,
        m & 0x01 == 0 ==> m & 0x00 == m & 0x01,
        m & 0x02 != 0 ==> (m & 0x01) | 0x02 == m & 0x03,
        m & 0x02 == 0 ==> m & 0x01 == m & 0x03,
        m & 0x04 != 0 ==> (m & 0x03) | 0x04 == m & 0x07,
        m & 0x04 == 0 ==> m & 0x03 == m & 0x07,
        m & 0x08 != 0 ==> (m & 0x07) | 0x08 == m & 0x0F,
        m & 0x08 == 0 ==> m & 0x07 == m & 0x0F,
        m & 0x10 != 0 ==> (m & 0x0F) | 0x10 == m & 0x1F,
        m & 0x10 == 0 ==> m & 0x0F == m & 0x1F,
        m & 0x20 != 0 ==> (m & 0x1F) | 0x20 == m & 0x3F,
        m & 0x20 == 0 ==> m & 0x1F == m & 0x3F,
        m & 0x40 != 0 ==> (m & 0x3F) | 0x40 == m & 0x7F,
        m & 0x40 == 0 ==> m & 0x3F == m & 0x7F,
        m <= 0x7F ==> m & 0x7F == m,
{
}

/// Each weekday's name stands for that weekday's bit.
pub proof fn lemma_name_bits()
    ensures
        forall|day: int| 0 <= day < 7 ==> name_bit(#[trigger] day_names()[day]) == day_bit(day),
{
    reveal_strlit("Monday");
    reveal_strlit("Tuesday");
    reveal_strlit("Wednesday");
    reveal_strlit("Thursday");
    reveal_strlit("Friday");
    reveal_strlit("Saturday");
    reveal_strlit("Sunday");
    assert("Monday"@.len() == 6 && "Monday"@[0] == 'M');
    assert("Tuesday"@.len() == 7);
    assert("Wednesday"@.len() == 9);
    assert("Thursday"@.len() == 8 && "Thursday"@[0] == 'T');
    assert("Friday"@.len() == 6 && "Friday"@[0] == 'F');
    assert("Saturday"@.len() == 8 && "Saturday"@[0] == 'S');
    assert("Sunday"@.len() == 6 && "Sunday"@[0] == 'S');
    assert(name_bit(day_names()[0]) == day_bit(0));
    assert(name_bit(day_names()[1]) == day_bit(1));
    assert(name_bit(day_names()[2]) == day_bit(2));
    assert(name_bit(day_names()[3]) == day_bit(3));
    assert(name_bit(day_names()[4]) == day_bit(4));
    assert(name_bit(day_names()[5]) == day_bit(5));
    assert(name_bit(day_names()[6]) == day_bit(6));
}

/// The names of the first `n` days of a mask decode to its first `n` bits.
pub proof fn lemma_mask_of_selected(mask: u8, n: nat)
    requires
        n <= 7,
    ensures
        mask_of(selected(mask, day_names(), n)) == mask & days_before(n as int),
    decreases n,
{
    lemma_day_by_day(mask);
    if n > 0 {
        lemma_mask_of_selected(mask, (n - 1) as nat);
        lemma_name_bits();
        let before = selected(mask, day_names(), (n - 1) as nat);
        if mask & day_bit(n - 1) != 0 {
            let now = before.push(day_names()[n - 1]);
            assert(now.drop_last() =~= before);
            assert(now.last() == day_names()[n - 1]);
        }
    }
}

/// Writing a mask as weekday names and reading the names gives the mask
/// back, for every mask in which bit 7 is clear.
pub proof fn lemma_names_round_trip(mask: u8)
    requires
        mask <= 0x7F,
    ensures
        mask_of(names_of(mask)) == mask,
{
    lemma_mask_of_selected(mask, 7);
    lemma_day_by_day(mask);
}

} // verus!
