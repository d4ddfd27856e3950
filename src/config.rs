use vstd::prelude::*;

verus! {

/// Largest batch for text payloads.
pub const TEXT_MAX_BATCH_SIZE: usize = 32;

/// Largest batch for image payloads.
pub const IMAGE_MAX_BATCH_SIZE: usize = 16;

/// How long a partial batch may wait for another item, in milliseconds.
pub const DEFAULT_IDLE_TIMEOUT_MS: u64 = 500;

/// Batches that may wait between the accumulator and the worker.
pub const DEFAULT_DISPATCH_CAPACITY: usize = 4;

/// Per-item results that may wait between the worker and the outbound stream.
pub const DEFAULT_RESPONSE_CAPACITY: usize = 32;

/// Why a configuration was refused.
#[derive(Debug, Clone, Copy, PartialEq, Eq, Structural)]
pub enum ConfigError {
    /// A batch must be allowed to hold at least one item.
    ZeroBatchSize,
    /// The dispatch channel must hold at least one batch.
    ZeroDispatchCapacity,
    /// The response channel must hold at least one result.
    ZeroResponseCapacity,
}

/// The recognized options of the gateway. Every value of this type is
/// usable: all sizes and capacities are positive.
#[derive(Debug, Clone, Copy)]
pub struct GatewayConfig {
    max_batch_size: usize,
    batch_idle_timeout_ms: u64,
    dispatch_channel_capacity: usize,
    response_channel_capacity: usize,
}

impl GatewayConfig {
    #[verifier::type_invariant]
    spec fn valid(self) -> bool {
        &&& self.max_batch_size >= 1
        &&& self.dispatch_channel_capacity >= 1
        &&& self.response_channel_capacity >= 1
    }

    pub closed spec fn spec_max_batch_size(self) -> usize {
        self.max_batch_size
    }

    pub closed spec fn spec_batch_idle_timeout_ms(self) -> u64 {
        self.batch_idle_timeout_ms
    }

    pub closed spec fn spec_dispatch_channel_capacity(self) -> usize {
        self.dispatch_channel_capacity
    }

    pub closed spec fn spec_response_channel_capacity(self) -> usize {
        self.response_channel_capacity
    }

    /// Builds a configuration, refusing a zero batch size or a zero
    /// channel capacity (checked in that order).
    pub fn new(
        max_batch_size: usize,
        batch_idle_timeout_ms: u64,
        dispatch_channel_capacity: usize,
        response_channel_capacity: usize,
    ) -> (r: Result<GatewayConfig, ConfigError>)
        ensures
            max_batch_size == 0 ==> r == Err::<GatewayConfig, ConfigError>(
                ConfigError::ZeroBatchSize,
            ),
            max_batch_size > 0 && dispatch_channel_capacity == 0 ==> r == Err::<
                GatewayConfig,
                ConfigError,
            >(ConfigError::ZeroDispatchCapacity),
            max_batch_size > 0 && dispatch_channel_capacity > 0 && response_channel_capacity == 0
                ==> r == Err::<GatewayConfig, ConfigError>(ConfigError::ZeroResponseCapacity),
            r is Ok <==> (max_batch_size > 0 && dispatch_channel_capacity > 0
                && response_channel_capacity > 0),
            r matches Ok(c) ==> {
                &&& c.spec_max_batch_size() == max_batch_size
                &&& c.spec_batch_idle_timeout_ms() == batch_idle_timeout_ms
                &&& c.spec_dispatch_channel_capacity() == dispatch_channel_capacity
                &&& c.spec_response_channel_capacity() == response_channel_capacity
            },
    {
        if max_batch_size == 0 {
            Err(ConfigError::ZeroBatchSize)
        } else if dispatch_channel_capacity == 0 {
            Err(ConfigError::ZeroDispatchCapacity)
        } else if response_channel_capacity == 0 {
            Err(ConfigError::ZeroResponseCapacity)
        } else {
            Ok(GatewayConfig {
                max_batch_size,
                batch_idle_timeout_ms,
                dispatch_channel_capacity,
                response_channel_capacity,
            })
        }
    }

    /// Defaults for text payloads.
    pub fn for_text() -> (c: GatewayConfig)
        ensures
            c.spec_max_batch_size() == TEXT_MAX_BATCH_SIZE,
            c.spec_batch_idle_timeout_ms() == DEFAULT_IDLE_TIMEOUT_MS,
            c.spec_dispatch_channel_capacity() == DEFAULT_DISPATCH_CAPACITY,
            c.spec_response_channel_capacity() == DEFAULT_RESPONSE_CAPACITY,
    {
        GatewayConfig {
            max_batch_size: TEXT_MAX_BATCH_SIZE,
            batch_idle_timeout_ms: DEFAULT_IDLE_TIMEOUT_MS,
            dispatch_channel_capacity: DEFAULT_DISPATCH_CAPACITY,
            response_channel_capacity: DEFAULT_RESPONSE_CAPACITY,
        }
    }

    /// Defaults for image payloads, which are heavier per item.
    pub fn for_images() -> (c: GatewayConfig)
        ensures
            c.spec_max_batch_size() == IMAGE_MAX_BATCH_SIZE,
            c.spec_batch_idle_timeout_ms() == DEFAULT_IDLE_TIMEOUT_MS,
            c.spec_dispatch_channel_capacity() == DEFAULT_DISPATCH_CAPACITY,
            c.spec_response_channel_capacity() == DEFAULT_RESPONSE_CAPACITY,
    {
        GatewayConfig {
            max_batch_size: IMAGE_MAX_BATCH_SIZE,
            batch_idle_timeout_ms: DEFAULT_IDLE_TIMEOUT_MS,
            dispatch_channel_capacity: DEFAULT_DISPATCH_CAPACITY,
            response_channel_capacity: DEFAULT_RESPONSE_CAPACITY,
        }
    }

    pub fn max_batch_size(&self) -> (r: usize)
        ensures
            r == self.spec_max_batch_size(),
            r >= 1,
    {
        proof {
            use_type_invariant(self);
        }
        self.max_batch_size
    }

    pub fn batch_idle_timeout_ms(&self) -> (r: u64)
        ensures
            r == self.spec_batch_idle_timeout_ms(),
    {
        self.batch_idle_timeout_ms
    }

    pub fn dispatch_channel_capacity(&self) -> (r: usize)
        ensures
            r == self.spec_dispatch_channel_capacity(),
            r >= 1,
    {
        proof {
            use_type_invariant(self);
        }
        self.dispatch_channel_capacity
    }

    pub fn response_channel_capacity(&self) -> (r: usize)
        ensures
            r == self.spec_response_channel_capacity(),
            r >= 1,
    {
        proof {
            use_type_invariant(self);
        }
        self.response_channel_capacity
    }
}

} // verus!
