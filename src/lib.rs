//! Status codes, enumerations of the numerical library's interface, and the
//! integer sampling policy of the VEGAS Monte Carlo integrator.

pub mod enums;
pub mod status;
pub mod vegas;

pub use enums::{
    EigenSort, FftDirection, GaussKonrodRule, IntegrationQawo, Mode, ODEiv, SfLegendreNorm,
    VegasMode, WaveletDirection,
};
pub use status::{GSLResult, Value};
pub use vegas::{check_iterations, check_shape, next_box, plan_sampling, SamplingPlan};
