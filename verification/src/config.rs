//! Service configuration: the settings the surrounding process reads
//! from its environment and hands in, and the validation they must
//! pass.

use vstd::prelude::*;

use crate::errors::AppError;

verus! {

#[derive(Debug, Clone)]
pub struct Config {
    pub server_host: String,
    pub server_port: u16,
    pub max_file_size_mb: usize,
    pub max_concurrent_requests: usize,
    pub request_timeout_seconds: u64,
    pub worker_threads: usize,
}

/// A configuration every setting of which is positive.
pub open spec fn config_valid(c: &Config) -> bool {
    c.server_port > 0 && c.max_file_size_mb > 0 && c.max_concurrent_requests > 0
        && c.request_timeout_seconds > 0 && c.worker_threads > 0
}

impl Config {
    /// Reject a configuration with any zero setting, naming the first
    /// offender.
    pub fn validate(&self) -> (r: Result<(), AppError>)
        ensures
            r is Ok <==> config_valid(self),
            self.server_port == 0 ==> (r.unwrap_err() matches AppError::ConfigError { message }
                && message@ == "SERVER_PORT must be greater than 0"@),
            (self.server_port > 0 && self.max_file_size_mb == 0) ==> (r.unwrap_err() matches AppError::ConfigError {
                message,
            } && message@ == "MAX_FILE_SIZE_MB must be greater than 0"@),
            (self.server_port > 0 && self.max_file_size_mb > 0 && self.max_concurrent_requests == 0)
                ==> (r.unwrap_err() matches AppError::ConfigError { message } && message@
                == "MAX_CONCURRENT_REQUESTS must be greater than 0"@),
            (self.server_port > 0 && self.max_file_size_mb > 0 && self.max_concurrent_requests > 0
                && self.request_timeout_seconds == 0) ==> (r.unwrap_err() matches AppError::ConfigError {
                message,
            } && message@ == "REQUEST_TIMEOUT_SECONDS must be greater than 0"@),
            (self.server_port > 0 && self.max_file_size_mb > 0 && self.max_concurrent_requests > 0
                && self.request_timeout_seconds > 0 && self.worker_threads == 0) ==> (
            r.unwrap_err() matches AppError::ConfigError { message } && message@
                == "WORKER_THREADS must be greater than 0"@),
    {
        if self.server_port == 0 {
            return Err(
                AppError::ConfigError {
                    message: String::from_str("SERVER_PORT must be greater than 0"),
                },
            );
        }
        if self.max_file_size_mb == 0 {
            return Err(
                AppError::ConfigError {
                    message: String::from_str("MAX_FILE_SIZE_MB must be greater than 0"),
                },
            );
        }
        if self.max_concurrent_requests == 0 {
            return Err(
                AppError::ConfigError {
                    message: String::from_str("MAX_CONCURRENT_REQUESTS must be greater than 0"),
                },
            );
        }
        if self.request_timeout_seconds == 0 {
            return Err(
                AppError::ConfigError {
                    message: String::from_str("REQUEST_TIMEOUT_SECONDS must be greater than 0"),
                },
            );
        }
        if self.worker_threads == 0 {
            return Err(
                AppError::ConfigError {
                    message: String::from_str("WORKER_THREADS must be greater than 0"),
                },
            );
        }
        Ok(())
    }

    /// Is the presented key one of the configured API keys?
    pub fn validate_api_key(valid_keys: &Vec<String>, key: &str) -> (r: bool)
        ensures
            r == (exists|i: int| 0 <= i < valid_keys@.len() && valid_keys@[i]@ == key@),
    {
        let candidate = String::from_str(key);
        let mut i: usize = 0;
        while i < valid_keys.len()
            invariant
                i <= valid_keys@.len(),
                candidate@ == key@,
                forall|j: int| 0 <= j < i ==> valid_keys@[j]@ != key@,
            decreases valid_keys@.len() - i,
        {
            if valid_keys[i] == candidate {
                return true;
            }
            i = i + 1;
        }
        false
    }
}

} // verus!
