# poet

The document and protocol logic of a static site and prompt server, verified
with Verus.

- `src/` is the verified library: rendering of Markdown (MDX) content
  documents to HTML, evaluation of prompt documents into messages, the
  text, headings and front matter read off a document tree, the MCP
  registries, listings, sessions and request decisions, and the in-memory
  and on-disk project file rules. Calls into outside crates (escaping,
  slugs, uri, media type and base64 parsing, uuids) stand behind trusted
  items whose contracts name what the crates compute.
- `tests/` runs the library on concrete values.
- `app/` is the `poet` command: it parses Markdown with the `markdown`
  crate, resolves what a document refers to outside itself, and prints what
  the library renders. It also holds the JSON forms of library types, the
  HTTP glue around the library's decisions, and the sitemap writer.

## Design choices

- Keyed collections (routes, sessions, subscriptions, tools, prompts,
  document errors, component properties) are `NameIndex`, a vector kept
  sorted by name with at most one entry per name. Its contracts speak of
  the entries in name order and of the map they form. Concurrent maps and
  maps keyed by `String` would leave these contracts unprovable: a map
  changed through a shared reference cannot be described by a contract,
  and a `String`-keyed standard map proves nothing about its contents.
- Scripts of a prompt document (expressions and components) run with the
  prompt state at their place in the document. Evaluation stops at a
  script that has no answer yet (`PromptEvalError::ScriptPending`); the
  host runs it with the state evaluation left, records what it rendered
  and what it did to the pending text (`ScriptAnswer`), and evaluates the
  document again with the answers so far. Attribute expressions and the
  targets of internal links and images are resolved by the host before
  evaluation.
- Code highlighting is syntect's; its results are named in the contracts
  (`found_syntax`, `classed_html`, ...) rather than spelled out.

## Left to the host

The command-line host renders no components and evaluates no
expressions (it has no component registry), and reads no items from
code-block metadata lines. The embedding stream, the MCP HTTP service,
session notifications, the project file walk and search indexing are
decided by the library (`EmbeddingCollector`, the request handlers'
plans, `DirectoryWalk`, `mdast_to_index_entries`) but not driven by the
command, which has no inference client, async runtime or search index.
