//! Configuration data for a service process.
//!
//! The values are read from the environment by the unverified bootstrap code;
//! this module holds the shapes they are parsed into, the deployment stage
//! and the decisions made from it.

use vstd::prelude::*;
use vstd::string::StringExecFns;

use crate::app_error::AppError;

verus! {

broadcast use vstd::string::group_string_axioms;

#[derive(Debug, Clone)]
pub struct DotEnvyConfig {
    pub server: Server,
    pub frontend: Frontend,
    pub database: Database,
    pub message_queue: MessageQueue,
    pub swagger: Swagger,
}

#[derive(Debug, Clone)]
pub struct Swagger {
    pub swagger_path: String,
    pub swagger_json_path: String,
}

#[derive(Debug, Clone)]
pub struct Server {
    pub port: u16,
    pub body_limit: usize,
    pub timeout: u64,
}

#[derive(Debug, Clone)]
pub struct Frontend {
    pub development_url: String,
    pub production_url: String,
}

#[derive(Debug, Clone)]
pub struct Database {
    pub url: String,
}

#[derive(Debug, Clone)]
pub struct MessageQueue {
    pub url: String,
}

#[derive(Debug, Clone)]
pub struct PatientsSecret {
    pub secret: String,
    pub refresh_secret: String,
}

#[derive(Debug, Clone)]
pub struct DoctorsSecret {
    pub secret: String,
    pub refresh_secret: String,
}

/// The deployment stage a process runs in.
#[derive(Debug, Clone, Copy, PartialEq, Eq, Structural)]
pub enum Stage {
    Local,
    Development,
    Production,
}

impl Default for Stage {
    /// An unset or unrecognized stage falls back to `Development`.
    fn default() -> (r: Self)
        ensures
            r == Stage::Development,
    {
        Stage::Development
    }
}

impl Stage {
    /// The name each stage displays.
    pub open spec fn spec_name(&self) -> Seq<char> {
        match self {
            Stage::Local => "Local"@,
            Stage::Development => "Development"@,
            Stage::Production => "Production"@,
        }
    }

    pub fn as_str(&self) -> (r: &str)
        ensures
            r@ == self.spec_name(),
    {
        match self {
            Stage::Local => "Local",
            Stage::Development => "Development",
            Stage::Production => "Production",
        }
    }

    /// Parses a stage from its display name; any other text is rejected.
    pub fn try_from(stage: &str) -> (r: Result<Self, AppError>)
        ensures
            stage@ == "Local"@ ==> r == Result::<Self, AppError>::Ok(Stage::Local),
            stage@ == "Development"@ ==> r == Result::<Self, AppError>::Ok(Stage::Development),
            stage@ == "Production"@ ==> r == Result::<Self, AppError>::Ok(Stage::Production),
            stage@ != "Local"@ && stage@ != "Development"@ && stage@ != "Production"@ ==> (r
                matches Err(AppError::Other(m)) && m@ == "Invalid stage"@),
    {
        proof {
            reveal_strlit("Local");
            reveal_strlit("Development");
            reveal_strlit("Production");
            assert("Local"@.len() == 5);
            assert("Development"@.len() == 11);
            assert("Production"@.len() == 10);
        }
        let s = stage.to_owned();
        if s == String::from_str("Local") {
            Ok(Stage::Local)
        } else if s == String::from_str("Development") {
            Ok(Stage::Development)
        } else if s == String::from_str("Production") {
            Ok(Stage::Production)
        } else {
            Err(AppError::Other(String::from_str("Invalid stage")))
        }
    }
}

/// The CORS origin each stage allows: production uses the production frontend
/// URL, local and development deployments use the development one.
pub open spec fn spec_frontend_origin(stage: Stage, frontend: Frontend) -> Seq<char> {
    match stage {
        Stage::Production => frontend.production_url@,
        _ => frontend.development_url@,
    }
}

pub fn frontend_origin<'a>(stage: &Stage, frontend: &'a Frontend) -> (r: &'a String)
    ensures
        r@ == spec_frontend_origin(*stage, *frontend),
{
    match stage {
        Stage::Production => &frontend.production_url,
        _ => &frontend.development_url,
    }
}

} // verus!
