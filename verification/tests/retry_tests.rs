use tee_consensus::paired_executor::TeeExecutor;
use tee_consensus::retry::{
    check_config, RegionConfig, RetryConfig, RetryDecision, RetryingClient,
};
use tee_consensus::types::{
    ConfigError, ExecutionParams, ExecutionPayload, ExecutionResult, ExecutionStats,
    TeeAttestation, TeeError,
};

struct QuietBackend {
    health: Result<bool, TeeError>,
}

impl TeeExecutor for QuietBackend {
    fn execute(&self, _payload: &ExecutionPayload) -> Result<ExecutionResult, TeeError> {
        Err(TeeError::Network)
    }

    fn get_attestations(&self) -> Result<Vec<TeeAttestation>, TeeError> {
        Ok(vec![])
    }

    fn health_check(&self) -> Result<bool, TeeError> {
        self.health.clone()
    }
}

struct PanickingBackend;

impl TeeExecutor for PanickingBackend {
    fn execute(&self, _payload: &ExecutionPayload) -> Result<ExecutionResult, TeeError> {
        panic!("execute must not be called");
    }

    fn get_attestations(&self) -> Result<Vec<TeeAttestation>, TeeError> {
        panic!("get_attestations must not be called");
    }

    fn health_check(&self) -> Result<bool, TeeError> {
        panic!("health_check must not be probed");
    }
}

fn good_config() -> RetryConfig {
    RetryConfig {
        max_retries: 3,
        initial_retry_delay_ms: 100,
        max_retry_delay_ms: 30000,
        connect_timeout_ms: 1000,
        request_timeout_ms: 5000,
    }
}

fn region(id: &str, endpoint: &str, auth: &str) -> RegionConfig {
    RegionConfig {
        id: id.to_string(),
        endpoint: endpoint.to_string(),
        auth_token: auth.to_string(),
    }
}

#[test]
fn construction_rejects_invalid_configurations() {
    let mut c = good_config();
    c.connect_timeout_ms = 6000;
    assert_eq!(check_config(&c), Err(ConfigError::TimeoutOrder));

    let mut c = good_config();
    c.max_retries = 0;
    assert_eq!(check_config(&c), Err(ConfigError::ZeroRetries));

    let mut c = good_config();
    c.request_timeout_ms = 300001;
    assert_eq!(check_config(&c), Err(ConfigError::RequestTimeoutTooLarge));

    let mut c = good_config();
    c.max_retries = 11;
    assert_eq!(check_config(&c), Err(ConfigError::TooManyRetries));

    let mut c = good_config();
    c.initial_retry_delay_ms = 40000;
    assert_eq!(check_config(&c), Err(ConfigError::RetryDelayOrder));

    let mut c = good_config();
    c.initial_retry_delay_ms = 30001;
    c.max_retry_delay_ms = 30001;
    assert_eq!(check_config(&c), Err(ConfigError::RetryDelayTooLarge));

    assert!(check_config(&good_config()).is_ok());
}

#[test]
fn constructor_surfaces_the_first_broken_bound() {
    let mut c = good_config();
    c.connect_timeout_ms = 6000;
    let r = RetryingClient::new(c, vec![], QuietBackend { health: Ok(true) });
    assert!(matches!(r, Err(ConfigError::TimeoutOrder)));

    let ok = RetryingClient::new(good_config(), vec![], QuietBackend { health: Ok(true) });
    assert!(ok.is_ok());
}

#[test]
fn backoff_doubles_up_to_the_cap() {
    let client =
        RetryingClient::new(good_config(), vec![], QuietBackend { health: Ok(true) }).unwrap();
    assert_eq!(client.backoff_delay(0), 100);
    assert_eq!(client.backoff_delay(1), 200);
    assert_eq!(client.backoff_delay(5), 3200);
    assert_eq!(client.backoff_delay(8), 25600);
    assert_eq!(client.backoff_delay(9), 30000);
    assert_eq!(client.backoff_delay(20), 30000);
}

#[test]
fn only_network_errors_are_retried_and_only_within_budget() {
    let client =
        RetryingClient::new(good_config(), vec![], QuietBackend { health: Ok(true) }).unwrap();

    match client.decide(0, Err(TeeError::Network)) {
        RetryDecision::RetryAfter(delay) => assert_eq!(delay, 100),
        other => panic!("expected a retry, got {:?}", other),
    }
    match client.decide(1, Err(TeeError::Network)) {
        RetryDecision::RetryAfter(delay) => assert_eq!(delay, 200),
        other => panic!("expected a retry, got {:?}", other),
    }
    assert!(matches!(
        client.decide(2, Err(TeeError::Network)),
        RetryDecision::Fail(TeeError::Network)
    ));
    assert!(matches!(
        client.decide(0, Err(TeeError::Execution)),
        RetryDecision::Fail(TeeError::Execution)
    ));

    let delivered = ExecutionResult {
        result: b"ok".to_vec(),
        state_hash: vec![],
        stats: ExecutionStats { execution_time: 0, memory_used: 0, syscall_count: 0 },
        attestations: vec![],
        timestamp: 0,
    };
    match client.decide(0, Ok(delivered)) {
        RetryDecision::Deliver(res) => assert_eq!(res.result, b"ok".to_vec()),
        other => panic!("expected delivery, got {:?}", other),
    }
}

#[test]
fn health_check_fails_fast_on_an_empty_endpoint_without_probing() {
    let regions = vec![
        region("one", "", "token"),
        region("two", "https://example.test", "token"),
    ];
    let client = RetryingClient::new(good_config(), regions, PanickingBackend).unwrap();
    assert_eq!(client.health_check(), Err(TeeError::Region));
}

#[test]
fn health_check_fails_fast_on_missing_auth() {
    let regions = vec![region("one", "https://example.test", "")];
    let client = RetryingClient::new(good_config(), regions, PanickingBackend).unwrap();
    assert_eq!(client.health_check(), Err(TeeError::Region));
}

#[test]
fn health_check_probes_complete_regions_and_propagates_the_first_error() {
    let regions = vec![region("one", "https://example.test", "token")];
    let sick = QuietBackend { health: Err(TeeError::Network) };
    let client = RetryingClient::new(good_config(), regions.clone(), sick).unwrap();
    assert_eq!(client.health_check(), Err(TeeError::Network));

    let unhealthy = QuietBackend { health: Ok(false) };
    let client = RetryingClient::new(good_config(), regions.clone(), unhealthy).unwrap();
    assert_eq!(client.health_check(), Err(TeeError::Region));

    let healthy = QuietBackend { health: Ok(true) };
    let client = RetryingClient::new(good_config(), regions, healthy).unwrap();
    assert_eq!(client.health_check(), Ok(true));
}

#[test]
fn health_check_with_no_regions_succeeds_without_probing() {
    let client = RetryingClient::new(good_config(), vec![], PanickingBackend).unwrap();
    assert_eq!(client.health_check(), Ok(true));
}

#[test]
fn one_attempt_hands_back_what_the_backend_said() {
    let client =
        RetryingClient::new(good_config(), vec![], QuietBackend { health: Ok(true) }).unwrap();
    let payload = ExecutionPayload { input: vec![], params: ExecutionParams::default() };
    assert_eq!(client.attempt_once(&payload), Err(TeeError::Network));
}
