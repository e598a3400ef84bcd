use fourier_fit::candles::CandleLengths;
use fourier_fit::controls::{Action, Controls, Message};
use fourier_fit::dates::iced_date_to_local_datetime;
use fourier_fit::error::AnalysisError;
use fourier_fit::filters::{FilterType, DEFAULT_ORDER};
use fourier_fit::response::{response_grid_len, MIN_RESPONSE_POINTS};

#[test]
fn grid_length_is_raised_to_the_minimum() {
    assert_eq!(MIN_RESPONSE_POINTS, 16);
    assert_eq!(response_grid_len(0), 16);
    assert_eq!(response_grid_len(15), 16);
    assert_eq!(response_grid_len(16), 16);
    assert_eq!(response_grid_len(100), 100);
}

#[test]
fn valid_dates_are_accepted() {
    assert_eq!(
        iced_date_to_local_datetime(2015, 3, 14),
        Ok(chrono::NaiveDate::from_ymd_opt(2015, 3, 14).unwrap())
    );
    assert_eq!(
        iced_date_to_local_datetime(2024, 2, 29),
        Ok(chrono::NaiveDate::from_ymd_opt(2024, 2, 29).unwrap())
    );
    assert!(iced_date_to_local_datetime(-4, 2, 29).is_ok());
    assert!(iced_date_to_local_datetime(2000, 2, 29).is_ok());
    assert!(iced_date_to_local_datetime(262142, 12, 31).is_ok());
    assert!(iced_date_to_local_datetime(-262143, 1, 1).is_ok());
}

#[test]
fn invalid_dates_are_refused() {
    assert_eq!(iced_date_to_local_datetime(2015, 0, 14), Err(String::from("Invalid date")));
    assert!(iced_date_to_local_datetime(2015, 2, 29).is_err());
    assert!(iced_date_to_local_datetime(1900, 2, 29).is_err());
    assert!(iced_date_to_local_datetime(2023, 4, 31).is_err());
    assert!(iced_date_to_local_datetime(2023, 13, 1).is_err());
    assert!(iced_date_to_local_datetime(2023, 1, 0).is_err());
    assert!(iced_date_to_local_datetime(400000, 1, 1).is_err());
    assert!(iced_date_to_local_datetime(262143, 1, 1).is_err());
}

#[test]
fn filter_types() {
    assert_eq!(FilterType::default(), FilterType::BUTTERWORTH);
    assert_eq!(FilterType::BUTTERWORTH.name(), "Butterworth");
    assert_eq!(FilterType::CHEBYSHEV1.name(), "Chebyshev I");
    assert_eq!(FilterType::CHEBYSHEV2.name(), "Chebyshev II");
    assert_eq!(
        FilterType::ALL,
        [FilterType::BUTTERWORTH, FilterType::CHEBYSHEV1, FilterType::CHEBYSHEV2]
    );
    assert_eq!(DEFAULT_ORDER, 4);
}

#[test]
fn error_messages() {
    assert_eq!(AnalysisError::EmptyInput.message(), "empty polynomial");
    assert_eq!(AnalysisError::ZeroPolynomial.message(), "zero polynomial");
    assert_eq!(
        AnalysisError::InvalidChunkSize.message(),
        "cannot make candles with a chunk size of zero"
    );
}

#[test]
fn controls_record_edits_and_ask_for_work() {
    let mut c = Controls::new();
    assert_eq!(c.filter, FilterType::BUTTERWORTH);
    assert!(c.cutoff_s.is_empty() && !c.show_modal);
    assert_eq!(c.update(Message::FilterChanged(FilterType::CHEBYSHEV2)), Action::Nothing);
    assert_eq!(c.update(Message::CutoffChanged(String::from("10"))), Action::Nothing);
    assert_eq!(c.update(Message::OrderChanged(String::from("3"))), Action::Nothing);
    assert_eq!(c.update(Message::CandleLengthsChanged(CandleLengths::Yearly)), Action::Nothing);
    assert_eq!(c.update(Message::OpenDataModal), Action::Nothing);
    assert!(c.show_modal);
    assert_eq!(c.update(Message::Calculate), Action::Calculate);
    assert_eq!(c.update(Message::LoadDemo), Action::LoadDemo);
    assert_eq!(c.update(Message::ClearOutput), Action::ClearOutput);
    assert_eq!(c.update(Message::CloseDataModal), Action::Nothing);
    assert_eq!(c.filter, FilterType::CHEBYSHEV2);
    assert_eq!(c.candle_length, CandleLengths::Yearly);
    assert_eq!(c.cutoff_s, "10");
    assert_eq!(c.order_s, "3");
    assert!(c.ripple_s.is_empty());
    assert!(!c.show_modal);
}
