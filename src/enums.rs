use vstd::prelude::*;

verus! {

/// Floating-point precision requested of special functions.
#[derive(Clone, Copy, Debug, PartialEq, Eq, Structural, PartialOrd)]
pub enum Mode {
    PrecDouble,
    PrecSingle,
    PrecApprox,
}

impl Mode {
    /// Whether a code names a value.
    pub open spec fn is_code(c: int) -> bool {
        c == 0 || c == 1 || c == 2
    }

    /// The integer code of this value.
    pub open spec fn spec_code(self) -> int {
        match self {
            Mode::PrecDouble => 0,
            Mode::PrecSingle => 1,
            Mode::PrecApprox => 2,
        }
    }

    /// The integer code of this value.
    pub fn to_code(self) -> (r: u32)
        ensures
            r as int == self.spec_code(),
    {
        match self {
            Mode::PrecDouble => 0,
            Mode::PrecSingle => 1,
            Mode::PrecApprox => 2,
        }
    }

    /// The value that a code names, or `None` for a code that names none.
    pub fn from_code(v: u32) -> (r: Option<Mode>)
        ensures
            r is Some <==> Mode::is_code(v as int),
            r is Some ==> r->Some_0.spec_code() == v as int,
    {
        match v {
            0 => Some(Mode::PrecDouble),
            1 => Some(Mode::PrecSingle),
            2 => Some(Mode::PrecApprox),
            _ => None,
        }
    }
}

impl From<Mode> for u32 {
    fn from(v: Mode) -> (r: u32) {
        v.to_code()
    }
}

impl vstd::std_specs::convert::FromSpecImpl<Mode> for u32 {
    open spec fn obeys_from_spec() -> bool {
        true
    }

    open spec fn from_spec(v: Mode) -> u32 {
        v.spec_code() as u32
    }
}

/// Order in which eigenvalues and eigenvectors are sorted.
#[derive(Clone, Copy, Debug, PartialEq, Eq, Structural, PartialOrd)]
pub enum EigenSort {
    /// ascending order in numerical value
    ValAsc,
    /// descending order in numerical value
    ValDesc,
    /// ascending order in magnitude
    AbsAsc,
    /// descending order in magnitude
    AbsDesc,
}

impl EigenSort {
    /// Whether a code names a value.
    pub open spec fn is_code(c: int) -> bool {
        c == 0 || c == 1 || c == 2 || c == 3
    }

    /// The integer code of this value.
    pub open spec fn spec_code(self) -> int {
        match self {
            EigenSort::ValAsc => 0,
            EigenSort::ValDesc => 1,
            EigenSort::AbsAsc => 2,
            EigenSort::AbsDesc => 3,
        }
    }

    /// The integer code of this value.
    pub fn to_code(self) -> (r: libc::c_int)
        ensures
            r as int == self.spec_code(),
    {
        match self {
            EigenSort::ValAsc => 0,
            EigenSort::ValDesc => 1,
            EigenSort::AbsAsc => 2,
            EigenSort::AbsDesc => 3,
        }
    }

    /// The value that a code names, or `None` for a code that names none.
    pub fn from_code(v: libc::c_int) -> (r: Option<EigenSort>)
        ensures
            r is Some <==> EigenSort::is_code(v as int),
            r is Some ==> r->Some_0.spec_code() == v as int,
    {
        match v {
            0 => Some(EigenSort::ValAsc),
            1 => Some(EigenSort::ValDesc),
            2 => Some(EigenSort::AbsAsc),
            3 => Some(EigenSort::AbsDesc),
            _ => None,
        }
    }
}

impl From<EigenSort> for libc::c_int {
    fn from(v: EigenSort) -> (r: libc::c_int) {
        v.to_code()
    }
}

impl vstd::std_specs::convert::FromSpecImpl<EigenSort> for libc::c_int {
    open spec fn obeys_from_spec() -> bool {
        true
    }

    open spec fn from_spec(v: EigenSort) -> libc::c_int {
        v.spec_code() as libc::c_int
    }
}

/// The sign in the transform formula `h(f) = sum x(t) exp(+/- 2 pi i f t)`:
/// minus for the forward direction, plus for the inverse one.
#[derive(Clone, Copy, Debug, PartialEq, Eq, Structural, PartialOrd)]
pub enum FftDirection {
    Forward,
    Backward,
}

impl FftDirection {
    /// Whether a code names a value.
    pub open spec fn is_code(c: int) -> bool {
        c == -1 || c == 1
    }

    /// The integer code of this value.
    pub open spec fn spec_code(self) -> int {
        match self {
            FftDirection::Forward => -1,
            FftDirection::Backward => 1,
        }
    }

    /// The integer code of this value.
    pub fn to_code(self) -> (r: libc::c_int)
        ensures
            r as int == self.spec_code(),
    {
        match self {
            FftDirection::Forward => -1,
            FftDirection::Backward => 1,
        }
    }

    /// The value that a code names, or `None` for a code that names none.
    pub fn from_code(v: libc::c_int) -> (r: Option<FftDirection>)
        ensures
            r is Some <==> FftDirection::is_code(v as int),
            r is Some ==> r->Some_0.spec_code() == v as int,
    {
        match v {
            -1 => Some(FftDirection::Forward),
            1 => Some(FftDirection::Backward),
            _ => None,
        }
    }
}

impl From<FftDirection> for libc::c_int {
    fn from(v: FftDirection) -> (r: libc::c_int) {
        v.to_code()
    }
}

impl vstd::std_specs::convert::FromSpecImpl<FftDirection> for libc::c_int {
    open spec fn obeys_from_spec() -> bool {
        true
    }

    open spec fn from_spec(v: FftDirection) -> libc::c_int {
        v.spec_code() as libc::c_int
    }
}

/// The low-level integration rules, identified by small integers (1-6).
#[derive(Clone, Copy, Debug, PartialEq, Eq, Structural, PartialOrd)]
pub enum GaussKonrodRule {
    /// 15 point Gauss-Kronrod rule
    Gauss15,
    /// 21 point Gauss-Kronrod rule
    Gauss21,
    /// 31 point Gauss-Kronrod rule
    Gauss31,
    /// 41 point Gauss-Kronrod rule
    Gauss41,
    /// 51 point Gauss-Kronrod rule
    Gauss51,
    /// 61 point Gauss-Kronrod rule
    Gauss61,
}

impl GaussKonrodRule {
    /// Whether a code names a value.
    pub open spec fn is_code(c: int) -> bool {
        c == 1 || c == 2 || c == 3 || c == 4 || c == 5 || c == 6
    }

    /// The integer code of this value.
    pub open spec fn spec_code(self) -> int {
        match self {
            GaussKonrodRule::Gauss15 => 1,
            GaussKonrodRule::Gauss21 => 2,
            GaussKonrodRule::Gauss31 => 3,
            GaussKonrodRule::Gauss41 => 4,
            GaussKonrodRule::Gauss51 => 5,
            GaussKonrodRule::Gauss61 => 6,
        }
    }

    /// The integer code of this value.
    pub fn to_code(self) -> (r: libc::c_int)
        ensures
            r as int == self.spec_code(),
    {
        match self {
            GaussKonrodRule::Gauss15 => 1,
            GaussKonrodRule::Gauss21 => 2,
            GaussKonrodRule::Gauss31 => 3,
            GaussKonrodRule::Gauss41 => 4,
            GaussKonrodRule::Gauss51 => 5,
            GaussKonrodRule::Gauss61 => 6,
        }
    }

    /// The value that a code names, or `None` for a code that names none.
    pub fn from_code(v: libc::c_int) -> (r: Option<GaussKonrodRule>)
        ensures
            r is Some <==> GaussKonrodRule::is_code(v as int),
            r is Some ==> r->Some_0.spec_code() == v as int,
    {
        match v {
            1 => Some(GaussKonrodRule::Gauss15),
            2 => Some(GaussKonrodRule::Gauss21),
            3 => Some(GaussKonrodRule::Gauss31),
            4 => Some(GaussKonrodRule::Gauss41),
            5 => Some(GaussKonrodRule::Gauss51),
            6 => Some(GaussKonrodRule::Gauss61),
            _ => None,
        }
    }
}

impl From<GaussKonrodRule> for libc::c_int {
    fn from(v: GaussKonrodRule) -> (r: libc::c_int) {
        v.to_code()
    }
}

impl vstd::std_specs::convert::FromSpecImpl<GaussKonrodRule> for libc::c_int {
    open spec fn obeys_from_spec() -> bool {
        true
    }

    open spec fn from_spec(v: GaussKonrodRule) -> libc::c_int {
        v.spec_code() as libc::c_int
    }
}

/// The weight function of the oscillatory (QAWO) integrator.
#[derive(Clone, Copy, Debug, PartialEq, Eq, Structural, PartialOrd)]
pub enum IntegrationQawo {
    Cosine,
    Sine,
}

impl IntegrationQawo {
    /// Whether a code names a value.
    pub open spec fn is_code(c: int) -> bool {
        c == 0 || c == 1
    }

    /// The integer code of this value.
    pub open spec fn spec_code(self) -> int {
        match self {
            IntegrationQawo::Cosine => 0,
            IntegrationQawo::Sine => 1,
        }
    }

    /// The integer code of this value.
    pub fn to_code(self) -> (r: libc::c_int)
        ensures
            r as int == self.spec_code(),
    {
        match self {
            IntegrationQawo::Cosine => 0,
            IntegrationQawo::Sine => 1,
        }
    }

    /// The value that a code names, or `None` for a code that names none.
    pub fn from_code(v: libc::c_int) -> (r: Option<IntegrationQawo>)
        ensures
            r is Some <==> IntegrationQawo::is_code(v as int),
            r is Some ==> r->Some_0.spec_code() == v as int,
    {
        match v {
            0 => Some(IntegrationQawo::Cosine),
            1 => Some(IntegrationQawo::Sine),
            _ => None,
        }
    }
}

impl From<IntegrationQawo> for libc::c_int {
    fn from(v: IntegrationQawo) -> (r: libc::c_int) {
        v.to_code()
    }
}

impl vstd::std_specs::convert::FromSpecImpl<IntegrationQawo> for libc::c_int {
    open spec fn obeys_from_spec() -> bool {
        true
    }

    open spec fn from_spec(v: IntegrationQawo) -> libc::c_int {
        v.spec_code() as libc::c_int
    }
}

/// Sampling strategy of the VEGAS integrator: importance sampling that may
/// fall back to stratified sampling, importance sampling alone, or stratified
/// sampling alone. The fallback happens when there are fewer than 2 bins per box.
#[derive(Clone, Copy, Debug, PartialEq, Eq, Structural, PartialOrd)]
pub enum VegasMode {
    Importance,
    ImportanceOnly,
    Stratified,
}

impl VegasMode {
    /// Whether a code names a value.
    pub open spec fn is_code(c: int) -> bool {
        c == 1 || c == 0 || c == -1
    }

    /// The integer code of this value.
    pub open spec fn spec_code(self) -> int {
        match self {
            VegasMode::Importance => 1,
            VegasMode::ImportanceOnly => 0,
            VegasMode::Stratified => -1,
        }
    }

    /// The integer code of this value.
    pub fn to_code(self) -> (r: libc::c_int)
        ensures
            r as int == self.spec_code(),
    {
        match self {
            VegasMode::Importance => 1,
            VegasMode::ImportanceOnly => 0,
            VegasMode::Stratified => -1,
        }
    }

    /// The value that a code names, or `None` for a code that names none.
    pub fn from_code(v: libc::c_int) -> (r: Option<VegasMode>)
        ensures
            r is Some <==> VegasMode::is_code(v as int),
            r is Some ==> r->Some_0.spec_code() == v as int,
    {
        match v {
            1 => Some(VegasMode::Importance),
            0 => Some(VegasMode::ImportanceOnly),
            -1 => Some(VegasMode::Stratified),
            _ => None,
        }
    }
}

impl From<VegasMode> for libc::c_int {
    fn from(v: VegasMode) -> (r: libc::c_int) {
        v.to_code()
    }
}

impl vstd::std_specs::convert::FromSpecImpl<VegasMode> for libc::c_int {
    open spec fn obeys_from_spec() -> bool {
        true
    }

    open spec fn from_spec(v: VegasMode) -> libc::c_int {
        v.spec_code() as libc::c_int
    }
}

/// Possible return values of a step-size adjustment for ordinary differential equations.
#[derive(Clone, Copy, Debug, PartialEq, Eq, Structural, PartialOrd)]
pub enum ODEiv {
    /// step was increased
    Inc,
    /// step unchanged
    Nil,
    /// step decreased
    Dec,
}

impl ODEiv {
    /// Whether a code names a value.
    pub open spec fn is_code(c: int) -> bool {
        c == 1 || c == 0 || c == -1
    }

    /// The integer code of this value.
    pub open spec fn spec_code(self) -> int {
        match self {
            ODEiv::Inc => 1,
            ODEiv::Nil => 0,
            ODEiv::Dec => -1,
        }
    }

    /// The integer code of this value.
    pub fn to_code(self) -> (r: libc::c_int)
        ensures
            r as int == self.spec_code(),
    {
        match self {
            ODEiv::Inc => 1,
            ODEiv::Nil => 0,
            ODEiv::Dec => -1,
        }
    }

    /// The value that a code names, or `None` for a code that names none.
    pub fn from_code(v: libc::c_int) -> (r: Option<ODEiv>)
        ensures
            r is Some <==> ODEiv::is_code(v as int),
            r is Some ==> r->Some_0.spec_code() == v as int,
    {
        match v {
            1 => Some(ODEiv::Inc),
            0 => Some(ODEiv::Nil),
            -1 => Some(ODEiv::Dec),
            _ => None,
        }
    }
}

impl From<ODEiv> for libc::c_int {
    fn from(v: ODEiv) -> (r: libc::c_int) {
        v.to_code()
    }
}

impl vstd::std_specs::convert::FromSpecImpl<ODEiv> for libc::c_int {
    open spec fn obeys_from_spec() -> bool {
        true
    }

    open spec fn from_spec(v: ODEiv) -> libc::c_int {
        v.spec_code() as libc::c_int
    }
}

/// Direction of a wavelet transform.
#[derive(Clone, Copy, Debug, PartialEq, Eq, Structural, PartialOrd)]
pub enum WaveletDirection {
    Forward,
    Backward,
}

impl WaveletDirection {
    /// Whether a code names a value.
    pub open spec fn is_code(c: int) -> bool {
        c == 1 || c == -1
    }

    /// The integer code of this value.
    pub open spec fn spec_code(self) -> int {
        match self {
            WaveletDirection::Forward => 1,
            WaveletDirection::Backward => -1,
        }
    }

    /// The integer code of this value.
    pub fn to_code(self) -> (r: libc::c_int)
        ensures
            r as int == self.spec_code(),
    {
        match self {
            WaveletDirection::Forward => 1,
            WaveletDirection::Backward => -1,
        }
    }

    /// The value that a code names, or `None` for a code that names none.
    pub fn from_code(v: libc::c_int) -> (r: Option<WaveletDirection>)
        ensures
            r is Some <==> WaveletDirection::is_code(v as int),
            r is Some ==> r->Some_0.spec_code() == v as int,
    {
        match v {
            1 => Some(WaveletDirection::Forward),
            -1 => Some(WaveletDirection::Backward),
            _ => None,
        }
    }
}

impl From<WaveletDirection> for libc::c_int {
    fn from(v: WaveletDirection) -> (r: libc::c_int) {
        v.to_code()
    }
}

impl vstd::std_specs::convert::FromSpecImpl<WaveletDirection> for libc::c_int {
    open spec fn obeys_from_spec() -> bool {
        true
    }

    open spec fn from_spec(v: WaveletDirection) -> libc::c_int {
        v.spec_code() as libc::c_int
    }
}

/// Normalization of associated Legendre functions.
#[derive(Clone, Copy, Debug, PartialEq, Eq, Structural, PartialOrd)]
pub enum SfLegendreNorm {
    Schmidt,
    SphericalHarmonic,
    Full,
    Unnormalized,
}

impl SfLegendreNorm {
    /// Whether a code names a value.
    pub open spec fn is_code(c: int) -> bool {
        c == 0 || c == 1 || c == 2 || c == 3
    }

    /// The integer code of this value.
    pub open spec fn spec_code(self) -> int {
        match self {
            SfLegendreNorm::Schmidt => 0,
            SfLegendreNorm::SphericalHarmonic => 1,
            SfLegendreNorm::Full => 2,
            SfLegendreNorm::Unnormalized => 3,
        }
    }

    /// The integer code of this value.
    pub fn to_code(self) -> (r: libc::c_int)
        ensures
            r as int == self.spec_code(),
    {
        match self {
            SfLegendreNorm::Schmidt => 0,
            SfLegendreNorm::SphericalHarmonic => 1,
            SfLegendreNorm::Full => 2,
            SfLegendreNorm::Unnormalized => 3,
        }
    }

    /// The value that a code names, or `None` for a code that names none.
    pub fn from_code(v: libc::c_int) -> (r: Option<SfLegendreNorm>)
        ensures
            r is Some <==> SfLegendreNorm::is_code(v as int),
            r is Some ==> r->Some_0.spec_code() == v as int,
    {
        match v {
            0 => Some(SfLegendreNorm::Schmidt),
            1 => Some(SfLegendreNorm::SphericalHarmonic),
            2 => Some(SfLegendreNorm::Full),
            3 => Some(SfLegendreNorm::Unnormalized),
            _ => None,
        }
    }
}

impl From<SfLegendreNorm> for libc::c_int {
    fn from(v: SfLegendreNorm) -> (r: libc::c_int) {
        v.to_code()
    }
}

impl vstd::std_specs::convert::FromSpecImpl<SfLegendreNorm> for libc::c_int {
    open spec fn obeys_from_spec() -> bool {
        true
    }

    open spec fn from_spec(v: SfLegendreNorm) -> libc::c_int {
        v.spec_code() as libc::c_int
    }
}

} // verus!
