//! Adapter and device negotiation.
//!
//! The negotiation talks to the graphics backend three times: it asks which
//! adapters can present to the surface, it requests a device from the chosen
//! adapter, and it asks what the surface can do with that adapter. The caller
//! performs those calls; every decision in between is made here. Each stage is
//! a type of its own, consumed by the step that takes the backend's answer, so
//! the steps can only be taken in order and only once.

use vstd::prelude::*;
use crate::selection::{
    first_set, is_first_set, lemma_first_set, lemma_format_fallback, none_set, preferred_format,
    select_adapter, select_format,
};
use crate::surface::{SurfaceCapabilities, SurfaceConfiguration, SurfaceUsage, WindowSize};

verus! {

/// Why a negotiation ended without a configuration. Every one of them is
/// fatal: there is no second path to try.
#[derive(Clone, Copy, Debug, PartialEq, Eq)]
pub enum NegotiationError {
    /// The window has a zero dimension.
    ZeroSizedWindow,
    /// No enumerated adapter can present to the surface.
    NoSupportedAdapter,
    /// The backend refused to grant a device.
    DeviceRequestRejected,
    /// The surface reports no texture format for the adapter.
    NoSurfaceFormat,
    /// The surface reports no presentation mode for the adapter.
    NoPresentMode,
    /// The surface reports no alpha compositing mode for the adapter.
    NoAlphaMode,
}

/// The optional device features to ask for. None are needed.
#[derive(Clone, Copy, Debug, PartialEq, Eq)]
pub enum FeatureSet {
    Empty,
}

/// The set of resource limits to ask a device for.
#[derive(Clone, Copy, Debug, PartialEq, Eq)]
pub enum LimitProfile {
    /// The backend's default limits.
    Default,
    /// Reduced limits, for a target that lacks full feature support.
    Constrained,
}

/// What to ask of which adapter when requesting a device.
#[derive(Clone, Copy, Debug, PartialEq, Eq)]
pub struct DeviceRequest {
    /// Position of the adapter in enumeration order.
    pub adapter: usize,
    pub features: FeatureSet,
    pub limits: LimitProfile,
}

/// The limit profile for a deployment target.
pub open spec fn limits_for(full_feature_support: bool) -> LimitProfile {
    if full_feature_support {
        LimitProfile::Default
    } else {
        LimitProfile::Constrained
    }
}

/// The configuration a surface of `size` starts with, given what it reports
/// for the chosen adapter: the preferred format, the first presentation mode
/// and the first alpha mode reported, and the dimensions of `size`.
pub open spec fn configuration_for(size: WindowSize, caps: SurfaceCapabilities) -> Result<
    SurfaceConfiguration,
    NegotiationError,
> {
    if !size.is_drawable() {
        Err(NegotiationError::ZeroSizedWindow)
    } else if caps.formats@.len() == 0 {
        Err(NegotiationError::NoSurfaceFormat)
    } else if caps.present_modes@.len() == 0 {
        Err(NegotiationError::NoPresentMode)
    } else if caps.alpha_modes@.len() == 0 {
        Err(NegotiationError::NoAlphaMode)
    } else {
        Ok(
            SurfaceConfiguration {
                usage: SurfaceUsage::RenderAttachment,
                format: preferred_format(caps.formats@).unwrap(),
                width: size.width,
                height: size.height,
                present_mode: caps.present_modes@[0],
                alpha_mode: caps.alpha_modes@[0],
            },
        )
    }
}

/// Builds the initial configuration of a surface of `size` from its reported
/// capabilities, or says what is missing.
pub fn initial_configuration(size: WindowSize, caps: &SurfaceCapabilities) -> (result: Result<
    SurfaceConfiguration,
    NegotiationError,
>)
    ensures
        result == configuration_for(size, *caps),
        result matches Ok(config) ==> config.is_applicable() && config.extent() == size,
{
    if !size.drawable() {
        return Err(NegotiationError::ZeroSizedWindow);
    }
    let format = match select_format(&caps.formats) {
        Some(format) => format,
        None => {
            return Err(NegotiationError::NoSurfaceFormat);
        },
    };
    if caps.present_modes.len() == 0 {
        return Err(NegotiationError::NoPresentMode);
    }
    if caps.alpha_modes.len() == 0 {
        return Err(NegotiationError::NoAlphaMode);
    }
    Ok(
        SurfaceConfiguration {
            usage: SurfaceUsage::RenderAttachment,
            format,
            width: size.width,
            height: size.height,
            present_mode: caps.present_modes[0],
            alpha_mode: caps.alpha_modes[0],
        },
    )
}

/// First stage: the window size is accepted, the adapters are yet to be
/// enumerated.
pub struct AdapterSelection {
    size: WindowSize,
    limits: LimitProfile,
}

/// Second stage: an adapter is chosen, the device request is yet to be
/// answered.
pub struct DeviceGrant {
    size: WindowSize,
    request: DeviceRequest,
}

/// Third stage: the device is granted, the surface's capabilities are yet to
/// be reported.
pub struct CapabilityQuery {
    size: WindowSize,
    adapter: usize,
}

/// Opens a negotiation for a window of `window_size`. A window with a zero
/// dimension is refused before the backend is asked anything.
pub fn negotiate(window_size: WindowSize, full_feature_support: bool) -> (result: Result<
    AdapterSelection,
    NegotiationError,
>)
    ensures
        result is Ok <==> window_size.is_drawable(),
        result matches Ok(stage) ==> stage.window_size() == window_size && stage.limits()
            == limits_for(full_feature_support),
        result matches Err(error) ==> error == NegotiationError::ZeroSizedWindow,
{
    if !window_size.drawable() {
        return Err(NegotiationError::ZeroSizedWindow);
    }
    let limits = if full_feature_support {
        LimitProfile::Default
    } else {
        LimitProfile::Constrained
    };
    Ok(AdapterSelection { size: window_size, limits })
}

impl AdapterSelection {
    #[verifier::type_invariant]
    spec fn inv(self) -> bool {
        self.size.is_drawable()
    }

    /// The window size the negotiation was opened with.
    pub closed spec fn window_size(self) -> WindowSize {
        self.size
    }

    /// The limit profile the device will be asked for.
    pub closed spec fn limits(self) -> LimitProfile {
        self.limits
    }

    /// Takes the backend's answers to "can this adapter present to the
    /// surface?", one per adapter in enumeration order, and settles on the
    /// first adapter that can. The next step is to request a device from it.
    pub fn select(self, supports_surface: &Vec<bool>) -> (result: Result<
        DeviceGrant,
        NegotiationError,
    >)
        ensures
            match first_set(supports_surface@) {
                Some(i) => {
                    &&& result matches Ok(stage)
                    &&& stage.window_size() == self.window_size()
                    &&& stage.request() == (DeviceRequest {
                        adapter: i as usize,
                        features: FeatureSet::Empty,
                        limits: self.limits(),
                    })
                    &&& stage.request().adapter == i
                },
                None => result matches Err(error) && error == NegotiationError::NoSupportedAdapter,
            },
            result is Err <==> none_set(supports_surface@),
            result matches Ok(stage) ==> is_first_set(
                supports_surface@,
                stage.request().adapter as int,
            ),
    {
        proof {
            use_type_invariant(&self);
        }
        match select_adapter(supports_surface) {
            Some(adapter) => Ok(
                DeviceGrant {
                    size: self.size,
                    request: DeviceRequest {
                        adapter,
                        features: FeatureSet::Empty,
                        limits: self.limits,
                    },
                },
            ),
            None => Err(NegotiationError::NoSupportedAdapter),
        }
    }
}

impl DeviceGrant {
    #[verifier::type_invariant]
    spec fn inv(self) -> bool {
        self.size.is_drawable()
    }

    /// The window size the negotiation was opened with.
    pub closed spec fn window_size(self) -> WindowSize {
        self.size
    }

    /// The device request to put to the backend.
    pub closed spec fn request(self) -> DeviceRequest {
        self.request
    }

    /// The device request to put to the backend.
    pub fn device_request(&self) -> (request: DeviceRequest)
        ensures
            request == self.request(),
    {
        self.request
    }

    /// Takes the backend's answer to the device request. A rejection ends the
    /// negotiation; after a grant the next step is to query the surface's
    /// capabilities for the chosen adapter.
    pub fn resolve(self, granted: bool) -> (result: Result<CapabilityQuery, NegotiationError>)
        ensures
            result is Ok <==> granted,
            result matches Ok(stage) ==> stage.window_size() == self.window_size()
                && stage.adapter() == self.request().adapter,
            result matches Err(error) ==> error == NegotiationError::DeviceRequestRejected,
    {
        proof {
            use_type_invariant(&self);
        }
        if granted {
            Ok(CapabilityQuery { size: self.size, adapter: self.request.adapter })
        } else {
            Err(NegotiationError::DeviceRequestRejected)
        }
    }
}

impl CapabilityQuery {
    #[verifier::type_invariant]
    spec fn inv(self) -> bool {
        self.size.is_drawable()
    }

    /// The window size the negotiation was opened with.
    pub closed spec fn window_size(self) -> WindowSize {
        self.size
    }

    /// Position, in enumeration order, of the adapter the device came from.
    pub closed spec fn adapter(self) -> int {
        self.adapter as int
    }

    /// Position, in enumeration order, of the adapter whose capabilities are
    /// to be queried.
    pub fn adapter_index(&self) -> (index: usize)
        ensures
            index == self.adapter(),
    {
        self.adapter
    }

    /// Takes the surface's capabilities for the chosen adapter and closes the
    /// negotiation with the configuration to initialise the surface with. An
    /// empty capability list leaves nothing to configure with.
    pub fn configure(self, caps: &SurfaceCapabilities) -> (result: Result<
        SurfaceConfiguration,
        NegotiationError,
    >)
        ensures
            result == configuration_for(self.window_size(), *caps),
            !(result matches Err(error) && error == NegotiationError::ZeroSizedWindow),
            result matches Ok(config) ==> config.is_applicable() && config.extent()
                == self.window_size(),
    {
        proof {
            use_type_invariant(&self);
        }
        initial_configuration(self.size, caps)
    }
}

/// What a completed negotiation settled on: the device request that was
/// granted, and the configuration to initialise the surface with.
#[derive(Clone, Copy, Debug, PartialEq, Eq)]
pub struct Negotiated {
    pub request: DeviceRequest,
    pub config: SurfaceConfiguration,
}

/// The outcome of a whole negotiation, as a function of the window size, the
/// deployment target and everything the backend answers. The failures take
/// precedence in the order in which the questions are asked.
pub open spec fn negotiation_outcome(
    window_size: WindowSize,
    full_feature_support: bool,
    supports_surface: Seq<bool>,
    device_granted: bool,
    caps: SurfaceCapabilities,
) -> Result<Negotiated, NegotiationError> {
    if !window_size.is_drawable() {
        Err(NegotiationError::ZeroSizedWindow)
    } else if first_set(supports_surface) is None {
        Err(NegotiationError::NoSupportedAdapter)
    } else if !device_granted {
        Err(NegotiationError::DeviceRequestRejected)
    } else {
        match configuration_for(window_size, caps) {
            Ok(config) => Ok(
                Negotiated {
                    request: DeviceRequest {
                        adapter: first_set(supports_surface).unwrap() as usize,
                        features: FeatureSet::Empty,
                        limits: limits_for(full_feature_support),
                    },
                    config,
                },
            ),
            Err(error) => Err(error),
        }
    }
}

/// Runs a whole negotiation against a backend whose answers are known up
/// front, taking the stages in order and stopping at the first failure.
pub fn negotiate_with(
    window_size: WindowSize,
    full_feature_support: bool,
    supports_surface: &Vec<bool>,
    device_granted: bool,
    caps: &SurfaceCapabilities,
) -> (result: Result<Negotiated, NegotiationError>)
    ensures
        result == negotiation_outcome(
            window_size,
            full_feature_support,
            supports_surface@,
            device_granted,
            *caps,
        ),
        result matches Ok(negotiated) ==> negotiated.config.is_applicable(),
{
    let selection = match negotiate(window_size, full_feature_support) {
        Ok(stage) => stage,
        Err(error) => {
            return Err(error);
        },
    };
    let grant = match selection.select(supports_surface) {
        Ok(stage) => stage,
        Err(error) => {
            return Err(error);
        },
    };
    let request = grant.device_request();
    let query = match grant.resolve(device_granted) {
        Ok(stage) => stage,
        Err(error) => {
            return Err(error);
        },
    };
    match query.configure(caps) {
        Ok(config) => Ok(Negotiated { request, config }),
        Err(error) => Err(error),
    }
}

/// What every completed negotiation has settled on: the first adapter that
/// can present to the surface, and a configuration with the window's two
/// non-zero dimensions whose format, presentation mode and alpha mode are all
/// among those the surface reported. The list of answers is as long as a
/// vector can be.
pub proof fn lemma_outcome_is_sound(
    window_size: WindowSize,
    full_feature_support: bool,
    supports_surface: Seq<bool>,
    device_granted: bool,
    caps: SurfaceCapabilities,
)
    requires
        supports_surface.len() <= usize::MAX,
    ensures
        negotiation_outcome(
            window_size,
            full_feature_support,
            supports_surface,
            device_granted,
            caps,
        ) matches Ok(negotiated) ==> {
            &&& device_granted
            &&& is_first_set(supports_surface, negotiated.request.adapter as int)
            &&& negotiated.config.is_applicable()
            &&& negotiated.config.extent() == window_size
            &&& caps.formats@.contains(negotiated.config.format)
            &&& caps.present_modes@.contains(negotiated.config.present_mode)
            &&& caps.alpha_modes@.contains(negotiated.config.alpha_mode)
        },
{
    let outcome = negotiation_outcome(
        window_size,
        full_feature_support,
        supports_surface,
        device_granted,
        caps,
    );
    if outcome is Ok {
        lemma_first_set(supports_surface);
        lemma_format_fallback(caps.formats@);
        assert(caps.present_modes@.contains(caps.present_modes@[0]));
        assert(caps.alpha_modes@.contains(caps.alpha_modes@[0]));
    }
}

} // verus!
