use vstd::prelude::*;

verus! {

/// The body of a request for the plugin's `performAction`.
#[derive(Clone, Debug)]
pub struct PerformAction {
    pub action: String,
    pub model_id: Option<u32>,
    pub text: Option<String>,
    pub visualization_model_id: Option<u32>,
}

/// The body of a request for the plugin's `queueAction`.
#[derive(Clone, Debug)]
pub struct QueueAction {
    pub action: String,
    pub model_id: Option<u32>,
    pub text: Option<String>,
    pub visualization_model_id: Option<u32>,
}

} // verus!
