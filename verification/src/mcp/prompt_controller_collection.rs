//! The prompts a server offers, kept in the order of their names.

use vstd::prelude::*;

use crate::mcp::list_resources_cursor::ListResourcesCursor;
use crate::mcp::name_index::page_of;
use crate::mcp::name_index::NameIndex;
use crate::mcp::prompt::Prompt;
use crate::mcp::prompt_controller::PromptController;

verus! {

/// Prompt controllers, by prompt name.
pub struct PromptControllerCollection<C>(pub NameIndex<C>);

impl<C: PromptController> PromptControllerCollection<C> {
    /// The prompts on the page that `cursor` names, in the order of the
    /// prompts' names.
    pub fn list_mcp_prompts(&self, cursor: ListResourcesCursor) -> (r: Vec<Prompt>)
        ensures
            r@.len() == page_of(self.0.view(), cursor.offset as int, cursor.per_page as int).len(),
            forall|i: int|
                0 <= i < r@.len() ==> call_ensures(
                    C::get_mcp_prompt,
                    (&page_of(self.0.view(), cursor.offset as int, cursor.per_page as int)[i],),
                    #[trigger] r@[i],
                ),
    {
        let page = self.0.page(cursor.offset, cursor.per_page);
        let ghost controllers = page@.map_values(|c: &C| *c);
        let mut out: Vec<Prompt> = Vec::new();
        let mut i: usize = 0;
        while i < page.len()
            invariant
                i <= page.len(),
                controllers == page@.map_values(|c: &C| *c),
                out@.len() == i,
                forall|k: int|
                    0 <= k < i ==> call_ensures(C::get_mcp_prompt, (&controllers[k],), #[trigger] out@[k]),
            decreases page.len() - i,
        {
            out.push(page[i].get_mcp_prompt());
            assert(controllers[i as int] == *page@[i as int]);
            i = i + 1;
        }
        out
    }
}

} // verus!
