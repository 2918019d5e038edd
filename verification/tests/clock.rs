use chrono::{NaiveDateTime, TimeZone};
use chrono_tz::US::Eastern;
use race_scheduler::clock::{parse_time, read_time, CivilTime, Instant, LocalTimes, TimeReading};

#[test]
fn test_datetime_stuff() {
    let ndt = NaiveDateTime::parse_from_str("06/09/2021 11:00pm", "%m/%d/%Y %I:%M%P");
    ndt.unwrap();
}

#[test]
fn test_parse_time() {
    let odt = parse_time("06/09/2021 11:00pm");
    assert!(odt.is_some());
    let dt = odt.unwrap();
    assert_eq!(6, dt.month());
    assert_eq!(9, dt.day());
    assert_eq!(2021, dt.year());
    assert_eq!(23, dt.hour());
    assert_eq!(0, dt.minute());
    assert_eq!(0, dt.second());
    assert_eq!(
        "2021-06-09T23:00:00-04:00",
        Eastern.timestamp_opt(dt.timestamp(), 0).unwrap().to_rfc3339()
    );
    assert_eq!(1623294000, dt.timestamp());
}

#[test]
fn parse_time_is_case_insensitive() {
    let upper = parse_time("06/09/2021 11:00PM").unwrap();
    let lower = parse_time("06/09/2021 11:00pm").unwrap();
    assert_eq!(upper, lower);
    assert_eq!(1623294000, upper.timestamp());
}

#[test]
fn parse_time_rejects_malformed_text() {
    assert_eq!(None, parse_time("next tuesday"));
    assert_eq!(None, parse_time("2021-06-09 23:00"));
    assert_eq!(None, parse_time("06/09/2021 25:00pm"));
    assert_eq!(None, parse_time("aa/09/2021 11:00pm"));
    assert_eq!(None, parse_time(""));
    assert_eq!(TimeReading::Malformed, read_time("06/09/2021"));
}

#[test]
fn parse_time_takes_the_first_of_two_instants_in_a_fold() {
    // Clocks went back from 2:00 EDT to 1:00 EST on 7 November 2021.
    let reading = read_time("11/07/2021 1:30am");
    match reading {
        TimeReading::Fold(first, second) => {
            assert_eq!(1636263000, first.timestamp());
            assert_eq!(1636266600, second.timestamp());
            assert_eq!(first.civil(), second.civil());
        }
        other => panic!("expected a fold, got {:?}", other),
    }
    let chosen = parse_time("11/07/2021 1:30am").unwrap();
    assert_eq!(1636263000, chosen.timestamp());
    assert_eq!(1, chosen.hour());
    assert_eq!(30, chosen.minute());
}

#[test]
fn parse_time_fails_in_a_gap() {
    // Clocks went forward from 2:00 EST to 3:00 EDT on 14 March 2021.
    assert_eq!(TimeReading::Gap, read_time("03/14/2021 2:30am"));
    assert_eq!(None, parse_time("03/14/2021 2:30am"));
    assert!(parse_time("03/14/2021 1:59am").is_some());
    assert!(parse_time("03/14/2021 3:00am").is_some());
}

#[test]
fn parse_round_trips_to_the_same_wall_clock() {
    let texts = [
        ("01/01/2021 12:00am", (2021, 1, 1, 0, 0)),
        ("02/29/2020 12:30pm", (2020, 2, 29, 12, 30)),
        ("7/4/2022 9:05am", (2022, 7, 4, 9, 5)),
        ("12/31/2030 11:59pm", (2030, 12, 31, 23, 59)),
    ];
    for (text, (year, month, day, hour, minute)) in texts {
        let parsed = parse_time(text).unwrap();
        let expected = CivilTime { year, month, day, hour, minute, second: 0 };
        assert_eq!(expected, parsed.civil());
        let again = Instant::at(parsed.timestamp()).unwrap();
        assert_eq!(expected, again.civil());
        assert_eq!(parsed, again);
    }
}

#[test]
fn instant_at_reads_the_eastern_wall_clock() {
    let i = Instant::at(1623294000).unwrap();
    assert_eq!(
        CivilTime { year: 2021, month: 6, day: 9, hour: 23, minute: 0, second: 0 },
        i.civil()
    );
    let epoch = Instant::at(0).unwrap();
    assert_eq!(
        CivilTime { year: 1969, month: 12, day: 31, hour: 19, minute: 0, second: 0 },
        epoch.civil()
    );
    assert_eq!(None, Instant::at(i64::MAX));
}

#[test]
fn settle_picks_by_what_the_zone_reported() {
    let wall = CivilTime { year: 2021, month: 6, day: 9, hour: 23, minute: 0, second: 0 };
    assert_eq!(TimeReading::Malformed, TimeReading::settle(None, LocalTimes::Single(5)));
    assert_eq!(TimeReading::Gap, TimeReading::settle(Some(wall), LocalTimes::Missing));
    let unique = TimeReading::settle(Some(wall), LocalTimes::Single(5));
    assert_eq!(5, unique.instant().unwrap().timestamp());
    assert_eq!(wall, unique.instant().unwrap().civil());
    let fold = TimeReading::settle(Some(wall), LocalTimes::Ambiguous(3, 9));
    assert_eq!(3, fold.instant().unwrap().timestamp());
    assert_eq!(Some(3), LocalTimes::Ambiguous(3, 9).earliest());
    assert_eq!(Some(5), LocalTimes::Single(5).earliest());
    assert_eq!(None, LocalTimes::Missing.earliest());
    assert!(LocalTimes::Ambiguous(3, 9).is_ambiguous());
    assert!(!LocalTimes::Single(3).is_ambiguous());
}
