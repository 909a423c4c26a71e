//! The tools a server offers, kept in the order of their names so that pages
//! of the listing follow one another.

use std::sync::Arc;

use vstd::prelude::*;

use crate::mcp::list_resources_cursor::ListResourcesCursor;
use crate::mcp::name_index::page_of;
use crate::mcp::name_index::sorted_by_name;
use crate::mcp::name_index::NameIndex;
use crate::mcp::tool::Tool;
use crate::mcp::tool_handler_service::ToolHandlerService;

verus! {

/// The names of the tools on a page of the listing.
pub open spec fn tool_names<R>(services: Seq<ToolHandlerService<R>>) -> Seq<Seq<char>> {
    services.map_values(|s: ToolHandlerService<R>| s.tool.name@)
}

/// The tools of a server, by name.
pub struct ToolRegistry<R> {
    handlers: NameIndex<ToolHandlerService<Arc<R>>>,
}

impl<R> ToolRegistry<R> {
    /// The tools, in the order of their names.
    pub closed spec fn entries(&self) -> Seq<(Seq<char>, ToolHandlerService<Arc<R>>)> {
        self.handlers.view()
    }

    /// The tool registered under each name.
    pub closed spec fn tools(&self) -> Map<Seq<char>, ToolHandlerService<Arc<R>>> {
        self.handlers.as_map()
    }

    /// A registry without tools.
    pub fn new() -> (r: Self)
        ensures
            r.entries() == Seq::<(Seq<char>, ToolHandlerService<Arc<R>>)>::empty(),
    {
        ToolRegistry { handlers: NameIndex::new() }
    }

    /// How many tools are registered.
    pub fn len(&self) -> (n: usize)
        ensures
            n == self.entries().len(),
            sorted_by_name(self.entries()),
    {
        self.handlers.len()
    }

    /// Where a call of the tool `tool_name` goes: the service registered
    /// under that name, which decodes the input and answers; none where no
    /// tool has that name, and the call is answered that it was not found.
    pub fn call_tool(&self, tool_name: &str) -> (r: Option<&ToolHandlerService<Arc<R>>>)
        ensures
            r is Some <==> self.tools().contains_key(tool_name@),
            r matches Some(s) ==> *s == self.tools()[tool_name@],
    {
        self.handlers.get(tool_name)
    }

    /// The definitions of the tools on the page that `cursor` names, in the
    /// order of the tools' names.
    pub fn list_tool_definitions(&self, cursor: ListResourcesCursor) -> (r: Vec<Tool>)
        ensures
            r@.map_values(|t: Tool| t.name@) == tool_names(
                page_of(self.entries(), cursor.offset as int, cursor.per_page as int),
            ),
    {
        let page = self.handlers.page(cursor.offset, cursor.per_page);
        let ghost expected = page@.map_values(|s: &ToolHandlerService<Arc<R>>| *s);
        let mut out: Vec<Tool> = Vec::new();
        let mut i: usize = 0;
        while i < page.len()
            invariant
                i <= page.len(),
                expected == page@.map_values(|s: &ToolHandlerService<Arc<R>>| *s),
                out@.map_values(|t: Tool| t.name@) == tool_names(expected.take(i as int)),
            decreases page.len() - i,
        {
            let ghost prev = out@;
            out.push(page[i].tool_definition());
            proof {
                assert(expected[i as int] == *page@[i as int]);
                assert(out@.map_values(|t: Tool| t.name@) =~= prev.map_values(|t: Tool| t.name@).push(
                    expected[i as int].tool.name@,
                ));
                assert(tool_names(expected.take(i + 1)) =~= tool_names(expected.take(i as int)).push(
                    expected[i as int].tool.name@,
                ));
            }
            i = i + 1;
        }
        assert(expected.take(page.len() as int) =~= expected);
        out
    }

    /// Registers a tool under `name`, replacing a tool of that name.
    pub fn register(&mut self, name: String, tool: Tool, responder: Arc<R>)
        ensures
            final(self).tools() == with_tool(old(self).tools(), name@, tool, responder),
            sorted_by_name(final(self).entries()),
    {
        self.handlers.insert(name, ToolHandlerService { responder, tool });
    }

    /// Registers a tool that answers its own calls.
    pub fn register_owned(&mut self, name: String, tool: Tool, responder: R)
        ensures
            owned_registration(old(self).tools(), final(self).tools(), name@, tool, responder),
            sorted_by_name(final(self).entries()),
    {
        let shared = Arc::new(responder);
        self.register(name, tool, shared);
    }
}

/// The tools `tools`, with `tool` registered under `name`, answered by
/// `responder`, in place of any tool of that name.
pub open spec fn with_tool<R>(
    tools: Map<Seq<char>, ToolHandlerService<Arc<R>>>,
    name: Seq<char>,
    tool: Tool,
    responder: Arc<R>,
) -> Map<Seq<char>, ToolHandlerService<Arc<R>>> {
    tools.insert(name, ToolHandlerService { responder, tool })
}

/// `after` is `before` with `tool` registered under `name`, answered by
/// `responder` itself: the other tools are as they were.
pub open spec fn owned_registration<R>(
    before: Map<Seq<char>, ToolHandlerService<Arc<R>>>,
    after: Map<Seq<char>, ToolHandlerService<Arc<R>>>,
    name: Seq<char>,
    tool: Tool,
    responder: R,
) -> bool {
    &&& after.dom() == before.dom().insert(name)
    &&& after[name].tool == tool
    &&& *after[name].responder == responder
    &&& forall|n: Seq<char>|
        n != name && #[trigger] before.contains_key(n) ==> after[n] == before[n]
}

/// Registering a tool that answers its own calls is registering it with
/// itself, shared, as its responder.
pub proof fn law_register_owned_is_register_shared<R>(
    before: Map<Seq<char>, ToolHandlerService<Arc<R>>>,
    after: Map<Seq<char>, ToolHandlerService<Arc<R>>>,
    name: Seq<char>,
    tool: Tool,
    responder: R,
    shared: Arc<R>,
)
    requires
        owned_registration(before, after, name, tool, responder),
        *shared == responder,
    ensures
        after == with_tool(before, name, tool, shared),
{
    assert(after[name] == ToolHandlerService { responder: shared, tool });
    assert(after =~= with_tool(before, name, tool, shared));
}

} // verus!
