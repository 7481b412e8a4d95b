pub mod rate_limiter;

pub use rate_limiter::{global_rate_limiter, Acquire, ExecuteStep, Execution, RateLimiter};
