//! Configuration of the in-network post store.
use vstd::prelude::*;

verus! {

/// Limits of the in-network post store.
#[derive(Clone, Copy, Debug, PartialEq, Eq, Structural)]
pub struct ThunderConfig {
    pub max_posts: usize,
    pub retention_seconds: u64,
}

impl Default for ThunderConfig {
    fn default() -> (r: ThunderConfig)
        ensures
            r == (ThunderConfig { max_posts: 0, retention_seconds: 0 }),
    {
        ThunderConfig { max_posts: 0, retention_seconds: 0 }
    }
}

/// Command line settings of the in-network post store service.
#[derive(Clone, Copy, Debug, PartialEq, Eq, Structural)]
pub struct Args {
    /// Post retention period in seconds.
    pub post_retention_seconds: u64,
    /// Request timeout in milliseconds.
    pub request_timeout_ms: u64,
    /// Maximum concurrent requests.
    pub max_concurrent_requests: usize,
    /// gRPC server port.
    pub grpc_port: u16,
    /// HTTP server port.
    pub http_port: u16,
    /// Whether the profiling server runs.
    pub enable_profiling: bool,
    /// Number of event consumer threads.
    pub kafka_num_threads: usize,
    /// Whether requests are served, beside consuming events.
    pub is_serving: bool,
}

impl Default for Args {
    fn default() -> (r: Args)
        ensures
            r == (Args {
                post_retention_seconds: 604800,
                request_timeout_ms: 5000,
                max_concurrent_requests: 1000,
                grpc_port: 50051,
                http_port: 8080,
                enable_profiling: false,
                kafka_num_threads: 4,
                is_serving: true,
            }),
    {
        Args {
            post_retention_seconds: 604800,
            request_timeout_ms: 5000,
            max_concurrent_requests: 1000,
            grpc_port: 50051,
            http_port: 8080,
            enable_profiling: false,
            kafka_num_threads: 4,
            is_serving: true,
        }
    }
}

} // verus!
