use chrono::Weekday;
use libclockrobustus::alarm::ActiveDays;

#[test]
fn mask_one_is_monday() {
    assert_eq!(ActiveDays(0x01).to_day_strings_vec(), vec!["Monday".to_string()]);
}

#[test]
fn mask_three_is_monday_and_tuesday() {
    assert_eq!(
        ActiveDays(0x03).to_day_strings_vec(),
        vec!["Monday".to_string(), "Tuesday".to_string()]
    );
}

#[test]
fn names_decode_to_their_bits() {
    let names = vec!["Monday".to_string(), "Tuesday".to_string()];
    assert_eq!(ActiveDays::from_day_strings(&names), ActiveDays(0x03));
    let single = vec!["Monday".to_string()];
    assert_eq!(ActiveDays::from_day_strings(&single), ActiveDays(0x01));
    assert_eq!(ActiveDays::from_day_strings(&Vec::new()), ActiveDays(0x00));
}

#[test]
fn every_mask_survives_the_round_trip() {
    for mask in 0u8..=0x7F {
        let names = ActiveDays(mask).to_day_strings_vec();
        assert_eq!(names.len() as u32, mask.count_ones());
        assert_eq!(ActiveDays::from_day_strings(&names), ActiveDays(mask));
    }
}

#[test]
fn bit_seven_names_no_day() {
    assert_eq!(ActiveDays(0x80).to_day_strings_vec(), Vec::<String>::new());
    assert_eq!(ActiveDays(0xFF).to_day_strings_vec().len(), 7);
    assert_eq!(ActiveDays(0x80).to_weekdays(), Vec::<Weekday>::new());
}

#[test]
fn all_seven_names_in_order() {
    let names = ActiveDays(0x7F).to_day_strings_vec();
    assert_eq!(
        names,
        vec![
            "Monday".to_string(),
            "Tuesday".to_string(),
            "Wednesday".to_string(),
            "Thursday".to_string(),
            "Friday".to_string(),
            "Saturday".to_string(),
            "Sunday".to_string()
        ]
    );
}

#[test]
fn unknown_names_set_no_bit() {
    let names = vec![
        "monday".to_string(),
        "Funday".to_string(),
        "Sunday".to_string(),
        "".to_string(),
        "Sunday ".to_string(),
    ];
    assert_eq!(ActiveDays::from_day_strings(&names), ActiveDays(0x40));
}

#[test]
fn names_may_come_in_any_order_and_twice() {
    let names = vec![
        "Sunday".to_string(),
        "Monday".to_string(),
        "Sunday".to_string(),
        "Friday".to_string(),
    ];
    assert_eq!(ActiveDays::from_day_strings(&names), ActiveDays(0x51));
}

#[test]
fn names_are_read_to_the_end_of_the_list() {
    let mut names: Vec<String> = Vec::new();
    for _ in 0..8 {
        names.push("x".to_string());
    }
    names.push("Monday".to_string());
    assert_eq!(ActiveDays::from_day_strings(&names), ActiveDays(0x01));
    for _ in 0..100 {
        names.push("Tuesday".to_string());
    }
    names.push("Sunday".to_string());
    assert_eq!(ActiveDays::from_day_strings(&names), ActiveDays(0x43));
}

#[test]
fn to_weekdays_lists_the_active_days() {
    let ad = ActiveDays(0x03);
    assert_eq!(ad.to_weekdays(), vec![Weekday::Mon, Weekday::Tue]);
    assert_eq!(
        ActiveDays(0x7F).to_weekdays(),
        vec![
            Weekday::Mon,
            Weekday::Tue,
            Weekday::Wed,
            Weekday::Thu,
            Weekday::Fri,
            Weekday::Sat,
            Weekday::Sun
        ]
    );
    assert_eq!(ActiveDays(0x50).to_weekdays(), vec![Weekday::Fri, Weekday::Sun]);
}

#[test]
fn contains_tests_the_bit_of_the_day() {
    let days = ActiveDays(0x41);
    assert!(days.contains(Weekday::Mon));
    assert!(!days.contains(Weekday::Tue));
    assert!(!days.contains(Weekday::Sat));
    assert!(days.contains(Weekday::Sun));
    assert!(!ActiveDays(0x80).contains(Weekday::Sun));
}

#[test]
fn as_vec_picks_by_position() {
    let picked = ActiveDays(0x05).as_vec(&vec![10u32, 20, 30, 40]);
    assert_eq!(picked, vec![10, 30]);
    let short = ActiveDays(0xFF).as_vec(&vec![1u8, 2]);
    assert_eq!(short, vec![1, 2]);
    let long = ActiveDays(0xFF).as_vec(&vec![1u8, 2, 3, 4, 5, 6, 7, 8, 9]);
    assert_eq!(long, vec![1, 2, 3, 4, 5, 6, 7]);
}
