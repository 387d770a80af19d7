use terminalviva::input::{AgendaSettings, GradeSettings, Settings};

#[test]
fn settings_keep_what_they_are_given() {
    assert!(Settings::new(true).desc_date);
    assert!(!Settings::new(false).desc_date);
    let chosen = GradeSettings::new(Settings::new(true), Some("storia".to_string()));
    assert!(chosen.settings.desc_date);
    assert_eq!(chosen.name, Some("storia".to_string()));
    assert_eq!(GradeSettings::new(Settings::new(false), None).name, None);
}

#[test]
fn no_date_stays_no_date() {
    let chosen = AgendaSettings::new(Settings::new(true), None).unwrap();
    assert_eq!(chosen.date, None);
    assert!(chosen.settings.desc_date);
}

#[test]
fn next_week_is_kept_as_it_is() {
    let chosen = AgendaSettings::new(Settings::new(false), Some("nextweek".to_string())).unwrap();
    assert_eq!(chosen.date, Some("nextweek".to_string()));
}

#[test]
fn a_date_loses_its_dashes() {
    let chosen = AgendaSettings::new(Settings::new(false), Some("2023-01-09".to_string())).unwrap();
    assert_eq!(chosen.date, Some("20230109".to_string()));
    assert!(!chosen.settings.desc_date);
}

#[test]
fn a_date_without_padding_is_padded() {
    let chosen = AgendaSettings::new(Settings::new(false), Some("2023-1-9".to_string())).unwrap();
    assert_eq!(chosen.date, Some("20230109".to_string()));
}

#[test]
fn a_leap_day_is_a_date() {
    let chosen = AgendaSettings::new(Settings::new(false), Some("2024-02-29".to_string())).unwrap();
    assert_eq!(chosen.date, Some("20240229".to_string()));
}

#[test]
fn a_text_that_is_no_date_is_refused_with_a_hint() {
    for given in ["09/01/2023", "2023-02-30", "2023-13-01", "20230109", "", "tomorrow", "Nextweek"] {
        match AgendaSettings::new(Settings::new(false), Some(given.to_string())) {
            Err(error) => {
                assert_eq!(error.date, given);
                assert_eq!(
                    error.message(),
                    "Invalid date format, please follow ISO 8601 standard format(YYYY-MM-DD)"
                );
            }
            Ok(chosen) => panic!("unexpected: {:?}", chosen),
        }
    }
}

#[test]
fn a_year_before_the_common_era_loses_its_sign_with_the_dashes() {
    let chosen = AgendaSettings::new(Settings::new(false), Some("-0001-03-04".to_string())).unwrap();
    assert_eq!(chosen.date, Some("00010304".to_string()));
}
