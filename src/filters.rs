use vstd::prelude::*;

verus! {

/// Filter order used until the user picks another.
pub const DEFAULT_ORDER: usize = 4;

/// The families of digital low-pass filter that can be designed.
#[derive(Debug, Clone, Copy, PartialEq, Eq, Structural)]
pub enum FilterType {
    BUTTERWORTH,
    CHEBYSHEV1,
    CHEBYSHEV2,
}

/// The display name of a filter family.
pub open spec fn filter_type_name(f: FilterType) -> Seq<char> {
    match f {
        FilterType::BUTTERWORTH => "Butterworth"@,
        FilterType::CHEBYSHEV1 => "Chebyshev I"@,
        FilterType::CHEBYSHEV2 => "Chebyshev II"@,
    }
}

impl FilterType {
    /// Every filter family, in the order the user interface lists them.
    pub const ALL: [FilterType; 3] = [
        FilterType::BUTTERWORTH,
        FilterType::CHEBYSHEV1,
        FilterType::CHEBYSHEV2,
    ];

    /// The name shown for this filter family.
    pub fn name(&self) -> (r: &'static str)
        ensures
            r@ == filter_type_name(*self),
    {
        match self {
            FilterType::BUTTERWORTH => "Butterworth",
            FilterType::CHEBYSHEV1 => "Chebyshev I",
            FilterType::CHEBYSHEV2 => "Chebyshev II",
        }
    }
}

impl Default for FilterType {
    fn default() -> (r: FilterType)
        ensures
            r == FilterType::BUTTERWORTH,
    {
        FilterType::BUTTERWORTH
    }
}

} // verus!
