use chrono::{Datelike, NaiveDate};
use terminalviva::dates::{
    get_current_agenda_week_date, get_current_lessons_week_date, get_next_week_date, Day, Weekday,
};

fn day(year: i32, month: u32, day: u32) -> Day {
    Day { days_from_ce: NaiveDate::from_ymd_opt(year, month, day).unwrap().num_days_from_ce() }
}

fn pair(start: &str, end: &str) -> Option<(String, String)> {
    Some((start.to_string(), end.to_string()))
}

fn same_weekday(ours: Weekday, theirs: chrono::Weekday) -> bool {
    ours.num_days_from_monday() == theirs.num_days_from_monday()
}

#[test]
fn weekday_agrees_with_the_calendar() {
    assert_eq!(day(2023, 1, 2).weekday(), Weekday::Mon);
    assert_eq!(day(2023, 1, 3).weekday(), Weekday::Tue);
    assert_eq!(day(2023, 1, 4).weekday(), Weekday::Wed);
    assert_eq!(day(2023, 1, 5).weekday(), Weekday::Thu);
    assert_eq!(day(2023, 1, 6).weekday(), Weekday::Fri);
    assert_eq!(day(2023, 1, 7).weekday(), Weekday::Sat);
    assert_eq!(day(2023, 1, 8).weekday(), Weekday::Sun);
    assert_eq!(day(1970, 1, 1).weekday(), Weekday::Thu);
    assert_eq!(day(1, 1, 1).weekday(), Weekday::Mon);
    assert_eq!(Day { days_from_ce: 1 }.weekday(), Weekday::Mon);
}

#[test]
fn weekday_agrees_with_chrono_over_many_days() {
    let mut date = NaiveDate::from_ymd_opt(1999, 12, 25).unwrap();
    for _ in 0..3000 {
        let ours = Day { days_from_ce: date.num_days_from_ce() }.weekday();
        assert!(same_weekday(ours, date.weekday()));
        date = date.succ_opt().unwrap();
    }
}

#[test]
fn weekday_before_the_first_day() {
    assert_eq!(Day { days_from_ce: 0 }.weekday(), Weekday::Sun);
    assert_eq!(Day { days_from_ce: -1 }.weekday(), Weekday::Sat);
    assert_eq!(Day { days_from_ce: -6 }.weekday(), Weekday::Mon);
    let date = NaiveDate::from_ymd_opt(-44, 3, 15).unwrap();
    assert!(same_weekday(Day { days_from_ce: date.num_days_from_ce() }.weekday(), date.weekday()));
    let far = Day { days_from_ce: i32::MIN }.weekday();
    let next = Day { days_from_ce: i32::MIN + 1 }.weekday();
    assert_eq!((far.num_days_from_monday() + 1) % 7, next.num_days_from_monday());
}

#[test]
fn weekday_numbers() {
    assert_eq!(Weekday::Mon.num_days_from_monday(), 0);
    assert_eq!(Weekday::Fri.num_days_from_monday(), 4);
    assert_eq!(Weekday::Sat.num_days_from_monday(), 5);
    assert_eq!(Weekday::Sun.num_days_from_monday(), 6);
}

#[test]
fn plus_days_adds_and_stops_at_the_limits() {
    assert_eq!(day(2023, 1, 30).plus_days(3), Some(day(2023, 2, 2)));
    assert_eq!(day(2024, 3, 1).plus_days(-1), Some(day(2024, 2, 29)));
    assert_eq!(Day { days_from_ce: i32::MAX }.plus_days(1), None);
    assert_eq!(Day { days_from_ce: i32::MIN }.plus_days(-1), None);
    assert_eq!(Day { days_from_ce: i32::MAX }.plus_days(0), Some(Day { days_from_ce: i32::MAX }));
}

#[test]
fn agenda_on_a_working_day_runs_from_today_to_friday() {
    assert_eq!(get_current_agenda_week_date(day(2023, 1, 4)), pair("20230104", "20230106"));
    assert_eq!(get_current_agenda_week_date(day(2023, 1, 2)), pair("20230102", "20230106"));
}

#[test]
fn agenda_on_a_friday_is_that_day_alone() {
    assert_eq!(get_current_agenda_week_date(day(2023, 1, 6)), pair("20230106", "20230106"));
}

#[test]
fn agenda_on_a_saturday_starts_two_days_later() {
    assert_eq!(get_current_agenda_week_date(day(2023, 1, 7)), pair("20230109", "20230113"));
}

#[test]
fn agenda_on_a_sunday_starts_the_next_day() {
    assert_eq!(get_current_agenda_week_date(day(2023, 1, 8)), pair("20230109", "20230113"));
}

#[test]
fn agenda_across_the_end_of_a_year() {
    assert_eq!(get_current_agenda_week_date(day(2022, 12, 31)), pair("20230102", "20230106"));
    assert_eq!(get_current_agenda_week_date(day(2024, 2, 27)), pair("20240227", "20240301"));
}

#[test]
fn lessons_run_from_monday_for_five_days() {
    assert_eq!(get_current_lessons_week_date(day(2023, 1, 4)), pair("20230102", "20230107"));
    assert_eq!(get_current_lessons_week_date(day(2023, 1, 2)), pair("20230102", "20230107"));
}

#[test]
fn lessons_on_a_weekend_stay_in_the_week_that_ends() {
    assert_eq!(get_current_lessons_week_date(day(2023, 1, 7)), pair("20230102", "20230107"));
    assert_eq!(get_current_lessons_week_date(day(2023, 1, 8)), pair("20230102", "20230107"));
}

#[test]
fn next_week_starts_on_the_monday_after_today() {
    assert_eq!(get_next_week_date(day(2023, 1, 4)), pair("20230109", "20230114"));
    assert_eq!(get_next_week_date(day(2023, 1, 7)), pair("20230109", "20230114"));
    assert_eq!(get_next_week_date(day(2023, 1, 2)), pair("20230109", "20230114"));
}

#[test]
fn next_week_on_a_sunday_starts_tomorrow() {
    assert_eq!(get_next_week_date(day(2023, 1, 8)), pair("20230109", "20230114"));
}

#[test]
fn next_week_start_is_always_a_later_monday() {
    let mut date = NaiveDate::from_ymd_opt(2024, 2, 20).unwrap();
    for _ in 0..30 {
        let (start, end) = get_next_week_date(Day { days_from_ce: date.num_days_from_ce() }).unwrap();
        let first = NaiveDate::parse_from_str(&start, "%Y%m%d").unwrap();
        let last = NaiveDate::parse_from_str(&end, "%Y%m%d").unwrap();
        assert_eq!(first.weekday(), chrono::Weekday::Mon);
        assert!(first > date);
        assert!((first - date).num_days() <= 7);
        assert_eq!((last - first).num_days(), 5);
        date = date.succ_opt().unwrap();
    }
}

#[test]
fn lessons_start_is_always_the_monday_on_or_before_today() {
    let mut date = NaiveDate::from_ymd_opt(2024, 12, 20).unwrap();
    for _ in 0..30 {
        let (start, end) =
            get_current_lessons_week_date(Day { days_from_ce: date.num_days_from_ce() }).unwrap();
        let first = NaiveDate::parse_from_str(&start, "%Y%m%d").unwrap();
        let last = NaiveDate::parse_from_str(&end, "%Y%m%d").unwrap();
        assert_eq!(first.weekday(), chrono::Weekday::Mon);
        assert!(first <= date);
        assert!((date - first).num_days() < 7);
        assert_eq!((last - first).num_days(), 5);
        date = date.succ_opt().unwrap();
    }
}

#[test]
fn agenda_always_ends_on_the_friday_of_the_week_it_starts_in() {
    let mut date = NaiveDate::from_ymd_opt(2023, 6, 1).unwrap();
    for _ in 0..30 {
        let (start, end) =
            get_current_agenda_week_date(Day { days_from_ce: date.num_days_from_ce() }).unwrap();
        let first = NaiveDate::parse_from_str(&start, "%Y%m%d").unwrap();
        let last = NaiveDate::parse_from_str(&end, "%Y%m%d").unwrap();
        assert_eq!(last.weekday(), chrono::Weekday::Fri);
        assert!(first <= last);
        assert_eq!(first.iso_week(), last.iso_week());
        match date.weekday() {
            chrono::Weekday::Sat => assert_eq!((first - date).num_days(), 2),
            chrono::Weekday::Sun => assert_eq!((first - date).num_days(), 1),
            _ => assert_eq!(first, date),
        }
        date = date.succ_opt().unwrap();
    }
}

#[test]
fn no_range_where_the_calendar_ends() {
    assert_eq!(get_current_agenda_week_date(Day { days_from_ce: i32::MAX }), None);
    assert_eq!(get_current_lessons_week_date(Day { days_from_ce: i32::MIN }), None);
    assert_eq!(get_next_week_date(Day { days_from_ce: i32::MAX - 3 }), None);
    let last = NaiveDate::MAX.num_days_from_ce();
    assert_eq!(get_next_week_date(Day { days_from_ce: last }), None);
}

#[test]
fn years_of_fewer_than_four_digits_are_padded() {
    let (start, end) = get_next_week_date(day(33, 4, 1)).unwrap();
    assert_eq!(start.len(), 8);
    assert_eq!(end.len(), 8);
    assert!(start.starts_with("003304"));
}
