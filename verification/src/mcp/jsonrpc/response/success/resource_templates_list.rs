use vstd::prelude::*;

use crate::mcp::resource_template::ResourceTemplate;

verus! {

#[derive(Debug)]
pub struct ResourcesTemplatesList {
    pub resource_templates: Vec<ResourceTemplate>,
}

} // verus!
