use vstd::prelude::*;

verus! {

#[derive(Debug)]
pub struct ServerCapabilityPrompts {
    pub list_changed: bool,
}

#[derive(Debug)]
pub struct ServerCapabilityResources {
    pub list_changed: bool,
    pub subscribe: bool,
}

#[derive(Debug)]
pub struct ServerCapabilityTools {
    pub list_changed: bool,
}

} // verus!
