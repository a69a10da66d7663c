//! The decisions of one run of the client, between reading the command line
//! and calling the handler.

use vstd::prelude::*;
use crate::command::{CompileCommand, HandlerCall, resolve_command, resolves_to};
use crate::config::{Config, bearer_credential, compile_config, key_accepted, refusal_message, runtime_config};
use crate::error::Error;

verus! {

/// What a run does once its configuration is settled.
pub struct RunPlan {
    pub config: Config,
    pub call: HandlerCall,
}

/// Settles the configuration from the API key and, only when that succeeds,
/// the handler call for the command.
pub fn plan_run(command: CompileCommand, api_key: Option<String>) -> (r: Result<RunPlan, Error>)
    ensures
        r is Ok <==> key_accepted(api_key),
        r matches Ok(p) ==> {
            &&& p.config@ =~= compile_config(bearer_credential(api_key->0@))
            &&& resolves_to(command, p.call)
        },
        r matches Err(e) ==> (e matches Error::Config(m) && m@ == refusal_message(api_key)),
{
    match runtime_config(api_key) {
        Ok(config) => Ok(RunPlan { config, call: resolve_command(command) }),
        Err(e) => Err(e),
    }
}

} // verus!
