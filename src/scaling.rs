use vstd::prelude::*;

verus! {

/// The axes along which a smart-scaled object is centred.
#[derive(Debug, Clone, Copy, PartialEq, Eq, Structural)]
pub enum ScalingCenteredTranslateParam {
    X,
    Y,
    Both,
}

/// A model transform that scales uniformly so that a design made for
/// `reference_size` fits the surface, keeping its aspect ratio, by the
/// factor `min(width / reference_width, height / reference_height)`.
/// With `param`, an object of the given size is also centred along the
/// chosen axes.
#[derive(Debug, Clone, Copy, PartialEq, Eq)]
pub struct SmartScaling {
    pub reference_size: (u32, u32),
    pub param: Option<(ScalingCenteredTranslateParam, (u32, u32))>,
}

impl SmartScaling {
    pub fn new(
        reference_size: (u32, u32),
        param: Option<(ScalingCenteredTranslateParam, (u32, u32))>,
    ) -> (r: SmartScaling)
        ensures
            r.reference_size == reference_size,
            r.param == param,
    {
        SmartScaling { reference_size, param }
    }
}

} // verus!
