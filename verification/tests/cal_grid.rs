use calendula::cal::{
    cal_fill_month, day_in_week, day_in_year, headers_init, leap_year, month_length, next_month,
    parse_month, plan, span_start, week_number, AgendaCommand, CalControl, CalError, CalMonth,
    CalRequest, SPACE,
};

fn ctl() -> CalControl {
    CalControl {
        reform_year: 1752,
        num_months: 1,
        span_months: false,
        months_in_row: 1,
        weekstart: 0,
        weektype: 0,
        day_width: 3,
        week_width: 20,
        gutter_width: 2,
        julian: false,
        header_year: false,
        header_hint: false,
        vertical: false,
        req: CalRequest { day: 0, month: 0, year: 0, start_month: 0 },
    }
}

fn agenda() -> AgendaCommand {
    AgendaCommand {
        calendar_id: "personal".to_string(),
        date: vec![],
        one: false,
        three: false,
        months: None,
        span: false,
        sunday: false,
        monday: false,
        julian: false,
        reform: None,
        iso: false,
        year: false,
        twelve: false,
        week: false,
        vertical: false,
    }
}

#[test]
fn parse_month_reads_numbers_and_names() {
    assert_eq!(parse_month("2"), 2);
    assert_eq!(parse_month("12"), 12);
    assert_eq!(parse_month("july"), 7);
    assert_eq!(parse_month("JUL"), 7);
    assert_eq!(parse_month("Sep"), 9);
    assert_eq!(parse_month("13"), 1);
    assert_eq!(parse_month("0"), 1);
    assert_eq!(parse_month("xyz"), 1);
    assert_eq!(parse_month(""), 1);
    assert_eq!(parse_month("ju"), 6);
}

#[test]
fn leap_rule_switches_at_the_reform() {
    let c = ctl();
    // Julian rule before the reform: 1700 is every-fourth-year leap.
    assert_eq!(leap_year(&c, 1700), 1);
    // Gregorian rule after it: 1900 is not leap, 2000 is, 2024 is.
    assert_eq!(leap_year(&c, 1900), 0);
    assert_eq!(leap_year(&c, 2000), 1);
    assert_eq!(leap_year(&c, 2024), 1);
    assert_eq!(leap_year(&c, 2026), 0);
    assert_eq!(month_length(&c, 2, 2024), 29);
    assert_eq!(month_length(&c, 2, 2026), 28);
}

#[test]
fn day_ordinals_accumulate_months() {
    let c = ctl();
    assert_eq!(day_in_year(&c, 1, 1, 2026), 1);
    assert_eq!(day_in_year(&c, 8, 10, 2026), 281);
    assert_eq!(day_in_year(&c, 31, 12, 2026), 365);
    assert_eq!(day_in_year(&c, 31, 12, 2024), 366);
}

#[test]
fn weekdays_around_the_reform_gap() {
    let c = ctl();
    // 2026-10-08 is a Thursday.
    assert_eq!(day_in_week(&c, 8, 10, 2026), 4);
    // 1752-09-02 was a Wednesday, 1752-09-14 the following Thursday.
    assert_eq!(day_in_week(&c, 2, 9, 1752), 3);
    assert_eq!(day_in_week(&c, 14, 9, 1752), 4);
    // The dropped days have no weekday.
    assert_eq!(day_in_week(&c, 5, 9, 1752), -1);
}

#[test]
fn first_week_of_a_year() {
    let mut c = ctl();
    c.weektype = 0x200;
    assert_eq!(week_number(1, 1, 2026, &c), 1);
}

#[test]
fn reform_month_grid_drops_eleven_days() {
    let c = ctl();
    let mut m = CalMonth { days: vec![], weeks: vec![], month: 9, year: 1752 };
    cal_fill_month(&mut m, &c);
    assert_eq!(m.days.len(), 42);
    // September 1752 starts on a Tuesday: two empty cells, then 1, 2, 14.
    assert_eq!(m.days[0], SPACE);
    assert_eq!(m.days[1], SPACE);
    assert_eq!(m.days[2], 1);
    assert_eq!(m.days[3], 2);
    assert_eq!(m.days[4], 14);
    assert_eq!(m.days[5], 15);
    assert_eq!(m.days[20], 30);
    assert_eq!(m.days[21], SPACE);
}

#[test]
fn ordinary_month_grid() {
    let c = ctl();
    let mut m = CalMonth { days: vec![], weeks: vec![], month: 10, year: 2026 };
    cal_fill_month(&mut m, &c);
    // October 2026 starts on a Thursday: four empty cells, then 1..31.
    assert_eq!(m.days[3], SPACE);
    assert_eq!(m.days[4], 1);
    assert_eq!(m.days[34], 31);
    assert_eq!(m.days[35], SPACE);
    assert_eq!(m.weeks.len(), 0);
}

#[test]
fn monday_started_grid_shifts_the_lead() {
    let mut c = ctl();
    c.weekstart = 1;
    let mut m = CalMonth { days: vec![], weeks: vec![], month: 10, year: 2026 };
    cal_fill_month(&mut m, &c);
    // Counted from Monday, Thursday leaves three empty cells.
    assert_eq!(m.days[2], SPACE);
    assert_eq!(m.days[3], 1);
}

#[test]
fn week_column_numbers_the_lines() {
    let mut c = ctl();
    c.weektype = 0x200;
    let mut m = CalMonth { days: vec![], weeks: vec![], month: 1, year: 2026 };
    cal_fill_month(&mut m, &c);
    assert_eq!(m.weeks.len(), 6);
    assert_eq!(m.weeks[0], 1);
    assert_eq!(m.weeks[1], 2);
    // January 2026 fills five week lines; the sixth is empty.
    assert_eq!(m.weeks[4], 5);
    assert_eq!(m.weeks[5], SPACE);
}

#[test]
fn headers_hint_depends_on_the_width() {
    let mut c = ctl();
    c.week_width = 20;
    c.req.year = 2026;
    headers_init(&mut c);
    assert!(!c.header_hint);
    c.week_width = 13;
    headers_init(&mut c);
    assert!(c.header_hint);
}

#[test]
fn plan_defaults_to_the_current_month() {
    let (c, yearly) = plan(&agenda(), 2026, 10, 281).unwrap();
    assert!(!yearly);
    assert_eq!(c.num_months, 1);
    assert_eq!(c.months_in_row, 1);
    assert_eq!(c.req.day, 281);
    assert_eq!(c.req.month, 10);
    assert_eq!(c.req.year, 2026);
    assert_eq!(c.weektype, 0);
    assert_eq!(c.day_width, 3);
    assert_eq!(c.week_width, 20);
    assert_eq!(c.gutter_width, 2);
}

#[test]
fn plan_yearly_shows_twelve_months() {
    let mut cmd = agenda();
    cmd.year = true;
    let (c, yearly) = plan(&cmd, 2026, 10, 281).unwrap();
    assert!(yearly);
    assert_eq!(c.num_months, 12);
    assert_eq!(c.months_in_row, 3);
    assert_eq!(c.req.start_month, 1);
    assert!(c.header_year);
    assert_eq!(c.gutter_width, 3);
}

#[test]
fn plan_resolves_a_full_date() {
    let mut cmd = agenda();
    cmd.date = vec!["15".to_string(), "10".to_string(), "2026".to_string()];
    let (c, _) = plan(&cmd, 2026, 1, 1).unwrap();
    assert_eq!(c.req.month, 10);
    assert_eq!(c.req.year, 2026);
    assert_eq!(c.req.day, 288);
}

#[test]
fn plan_rejects_an_impossible_day() {
    let mut cmd = agenda();
    cmd.date = vec!["32".to_string(), "10".to_string(), "2026".to_string()];
    let err = match plan(&cmd, 2026, 1, 1) {
        Err(e) => e,
        Ok(_) => panic!("the day must be rejected"),
    };
    assert_eq!(err, CalError::IllegalDay(31));
    assert_eq!(err.message(), "illegal day value: use 1-31");
}

#[test]
fn plan_rejects_a_year_before_one() {
    let mut cmd = agenda();
    cmd.date = vec!["0".to_string()];
    let err = match plan(&cmd, 2026, 1, 1) {
        Err(e) => e,
        Ok(_) => panic!("the year must be rejected"),
    };
    assert_eq!(err, CalError::IllegalYear);
    assert_eq!(err.message(), "illegal year value: use positive integer");
}

#[test]
fn plan_one_year_word_spans_the_year() {
    let mut cmd = agenda();
    cmd.date = vec!["2026".to_string()];
    let (c, yearly) = plan(&cmd, 2026, 10, 281).unwrap();
    assert!(yearly);
    assert_eq!(c.req.day, 281);
    assert_eq!(c.req.month, 10);
    assert_eq!(c.num_months, 12);
}

#[test]
fn plan_monday_week_numbers() {
    let mut cmd = agenda();
    cmd.monday = true;
    cmd.week = true;
    let (c, _) = plan(&cmd, 2026, 10, 281).unwrap();
    assert_eq!(c.weekstart, 1);
    assert_eq!(c.weektype, 0x100);
    assert_eq!(c.week_width, 23);
}

#[test]
fn plan_reform_words_pick_the_calendar() {
    let mut cmd = agenda();
    cmd.reform = Some("julian".to_string());
    let (c, _) = plan(&cmd, 2026, 10, 281).unwrap();
    assert_eq!(c.reform_year, i32::MAX);
    cmd.reform = Some("gregorian".to_string());
    let (c, _) = plan(&cmd, 2026, 10, 281).unwrap();
    assert_eq!(c.reform_year, i32::MIN);
    cmd.reform = None;
    cmd.iso = true;
    let (c, _) = plan(&cmd, 2026, 10, 281).unwrap();
    assert_eq!(c.reform_year, i32::MIN);
}

#[test]
fn span_starts_half_the_view_earlier() {
    assert_eq!(span_start(10, 2026, 3), (9, 2026));
    assert_eq!(span_start(1, 2026, 3), (12, 2025));
    assert_eq!(span_start(2, 2026, 3), (1, 2026));
}

#[test]
fn months_roll_into_the_next_year() {
    assert_eq!(next_month(10, 2026), (11, 2026));
    assert_eq!(next_month(12, 2026), (1, 2027));
}
