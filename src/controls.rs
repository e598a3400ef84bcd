use crate::candles::CandleLengths;
use crate::filters::FilterType;
use vstd::prelude::*;

verus! {

/// Events raised by the user interface.
#[derive(Debug, Clone)]
pub enum Message {
    FilterChanged(FilterType),
    CandleLengthsChanged(CandleLengths),
    CutoffChanged(String),
    OrderChanged(String),
    RippleChanged(String),
    AttenuationChanged(String),
    LoadDemo,
    Calculate,
    ClearOutput,
    WeightSelectionChanged(String),
    OpenDataModal,
    CloseDataModal,
}

/// Work that the caller performs after an event has been applied to the controls.
#[derive(Debug, Clone, Copy, PartialEq, Eq, Structural)]
pub enum Action {
    /// Nothing beyond the change of the controls.
    Nothing,
    /// Replace the raw data by the demonstration signal.
    LoadDemo,
    /// Parse the entered parameters and run the analysis.
    Calculate,
    /// Drop the displayed results.
    ClearOutput,
}

/// What the user has picked and typed so far: the choices, the text of each numeric
/// entry as typed, and whether the data dialog is open.
#[derive(Debug, Clone)]
pub struct Controls {
    pub filter: FilterType,
    pub candle_length: CandleLengths,
    pub cutoff_s: String,
    pub order_s: String,
    pub ripple_s: String,
    pub attenuation_s: String,
    pub weight_entry: String,
    pub show_modal: bool,
}

/// The controls after `m`, and the work it asks for. A choice or an edited entry
/// replaces the matching field; opening and closing the data dialog toggles its flag;
/// the three buttons leave the controls alone and ask for their action.
pub open spec fn step(c: Controls, m: Message) -> (Controls, Action) {
    match m {
        Message::FilterChanged(t) => (Controls { filter: t, ..c }, Action::Nothing),
        Message::CandleLengthsChanged(l) => (Controls { candle_length: l, ..c }, Action::Nothing),
        Message::CutoffChanged(s) => (Controls { cutoff_s: s, ..c }, Action::Nothing),
        Message::OrderChanged(s) => (Controls { order_s: s, ..c }, Action::Nothing),
        Message::RippleChanged(s) => (Controls { ripple_s: s, ..c }, Action::Nothing),
        Message::AttenuationChanged(s) => (Controls { attenuation_s: s, ..c }, Action::Nothing),
        Message::WeightSelectionChanged(s) => (Controls { weight_entry: s, ..c }, Action::Nothing),
        Message::OpenDataModal => (Controls { show_modal: true, ..c }, Action::Nothing),
        Message::CloseDataModal => (Controls { show_modal: false, ..c }, Action::Nothing),
        Message::LoadDemo => (c, Action::LoadDemo),
        Message::Calculate => (c, Action::Calculate),
        Message::ClearOutput => (c, Action::ClearOutput),
    }
}

impl Controls {
    /// Controls as first shown: default choices, empty entries, dialog closed.
    pub fn new() -> (r: Controls)
        ensures
            r.filter == FilterType::BUTTERWORTH,
            r.candle_length == CandleLengths::Weekly,
            r.cutoff_s@.len() == 0,
            r.order_s@.len() == 0,
            r.ripple_s@.len() == 0,
            r.attenuation_s@.len() == 0,
            r.weight_entry@.len() == 0,
            !r.show_modal,
    {
        Controls {
            filter: FilterType::BUTTERWORTH,
            candle_length: CandleLengths::Weekly,
            cutoff_s: String::new(),
            order_s: String::new(),
            ripple_s: String::new(),
            attenuation_s: String::new(),
            weight_entry: String::new(),
            show_modal: false,
        }
    }

    /// Applies one user-interface event and returns the work it asks for.
    pub fn update(&mut self, message: Message) -> (action: Action)
        ensures
            (*final(self), action) == step(*old(self), message),
    {
        match message {
            Message::FilterChanged(t) => {
                self.filter = t;
                Action::Nothing
            },
            Message::CandleLengthsChanged(l) => {
                self.candle_length = l;
                Action::Nothing
            },
            Message::CutoffChanged(s) => {
                self.cutoff_s = s;
                Action::Nothing
            },
            Message::OrderChanged(s) => {
                self.order_s = s;
                Action::Nothing
            },
            Message::RippleChanged(s) => {
                self.ripple_s = s;
                Action::Nothing
            },
            Message::AttenuationChanged(s) => {
                self.attenuation_s = s;
                Action::Nothing
            },
            Message::WeightSelectionChanged(s) => {
                self.weight_entry = s;
                Action::Nothing
            },
            Message::OpenDataModal => {
                self.show_modal = true;
                Action::Nothing
            },
            Message::CloseDataModal => {
                self.show_modal = false;
                Action::Nothing
            },
            Message::LoadDemo => Action::LoadDemo,
            Message::Calculate => Action::Calculate,
            Message::ClearOutput => Action::ClearOutput,
        }
    }
}

} // verus!
