//! The errors met while building documents, grouped by document.

use vstd::prelude::*;

use crate::eval_content_document_mdast::decimal;
use crate::eval_content_document_mdast::usize_to_decimal;
use crate::mcp::name_index::entries_map;
use crate::mcp::name_index::sorted_by_name;
use crate::mcp::name_index::NameIndex;
use crate::text::push_str;

verus! {

/// Errors met while building documents, by the basename of the document.
pub struct DocumentErrorCollection {
    errors: NameIndex<Vec<String>>,
}

/// How one error of the document `basename` is reported: the basename, then
/// the error as an item, then an empty line.
pub open spec fn error_report(basename: Seq<char>, message: Seq<char>) -> Seq<char> {
    basename + ":\n- "@ + message + "\n"@ + "\n"@
}

/// The reports of the errors `messages` of the document `basename`, in the
/// order they were met.
pub open spec fn document_reports(basename: Seq<char>, messages: Seq<String>) -> Seq<char>
    decreases messages.len(),
{
    if messages.len() == 0 {
        Seq::empty()
    } else {
        document_reports(basename, messages.drop_last()) + error_report(
            basename,
            messages.last()@,
        )
    }
}

/// The reports of the documents `entries`, one document after another.
pub open spec fn all_reports(entries: Seq<(Seq<char>, Vec<String>)>) -> Seq<char>
    decreases entries.len(),
{
    if entries.len() == 0 {
        Seq::empty()
    } else {
        all_reports(entries.drop_last()) + document_reports(
            entries.last().0,
            entries.last().1@,
        )
    }
}

impl DocumentErrorCollection {
    /// The errors of each document, in the order they were met.
    pub closed spec fn errors(&self) -> Map<Seq<char>, Vec<String>> {
        self.errors.as_map()
    }

    /// The documents with errors, in the order of their basenames.
    pub closed spec fn listing(&self) -> Seq<(Seq<char>, Vec<String>)> {
        self.errors.view()
    }

    /// A collection with no errors.
    pub fn new() -> (c: Self)
        ensures
            c.errors() == Map::<Seq<char>, Vec<String>>::empty(),
            c.listing() == Seq::<(Seq<char>, Vec<String>)>::empty(),
    {
        let c = DocumentErrorCollection { errors: NameIndex::new() };
        assert(c.errors() =~= Map::<Seq<char>, Vec<String>>::empty());
        c
    }

    /// Whether no error was registered.
    pub fn is_empty(&self) -> (b: bool)
        ensures
            b <==> self.errors().dom().len() == 0,
    {
        let n = self.errors.len();
        proof {
            crate::mcp::name_index::lemma_entries_map_len(self.errors.view());
        }
        n == 0
    }

    /// Registers the error `message`, met while building the document
    /// `basename`, after those already met there.
    pub fn register_error(&mut self, basename: String, message: String)
        ensures
            final(self).errors().dom() == old(self).errors().dom().insert(basename@),
            final(self).errors()[basename@]@ == (if old(self).errors().contains_key(basename@) {
                old(self).errors()[basename@]@
            } else {
                Seq::empty()
            }).push(message),
            old(self).errors().remove(basename@).submap_of(final(self).errors()),
    {
        let mut list: Vec<String> = Vec::new();
        match self.errors.get(basename.as_str()) {
            Some(existing) => {
                let mut i: usize = 0;
                while i < existing.len()
                    invariant
                        i <= existing.len(),
                        list@ == existing@.take(i as int),
                    decreases existing.len() - i,
                {
                    list.push(existing[i].clone());
                    assert(list@ =~= existing@.take(i + 1));
                    i = i + 1;
                }
                assert(existing@.take(existing.len() as int) =~= existing@);
            },
            None => {},
        }
        list.push(message);
        self.errors.insert(basename, list);
    }

    /// The report of every error: how many documents failed, then the
    /// errors of each, the documents in the order of their basenames.
    pub fn render(&self) -> (s: String)
        ensures
            sorted_by_name(self.listing()),
            entries_map(self.listing()) == self.errors(),
            s@ == "Multiple errors occurred ("@ + decimal(self.errors().dom().len()) + " total):\n"@
                + all_reports(self.listing()),
    {
        let n = self.errors.len();
        proof {
            crate::mcp::name_index::lemma_entries_map_len(self.errors.view());
        }
        let mut s = String::from_str("Multiple errors occurred (");
        let count = usize_to_decimal(n);
        push_str(&mut s, count.as_str());
        push_str(&mut s, " total):\n");
        let ghost head = s@;
        let mut k: usize = 0;
        while k < n
            invariant
                k <= n,
                n == self.listing().len(),
                s@ == head + all_reports(self.listing().take(k as int)),
            decreases n - k,
        {
            let (key, messages) = self.errors.entry_at(k);
            let basename = crate::text::string_from_chars(key);
            let ghost before = s@;
            let mut j: usize = 0;
            while j < messages.len()
                invariant
                    j <= messages.len(),
                    s@ == before + document_reports(basename@, messages@.take(j as int)),
                decreases messages.len() - j,
            {
                push_str(&mut s, basename.as_str());
                push_str(&mut s, ":\n- ");
                push_str(&mut s, messages[j].as_str());
                push_str(&mut s, "\n");
                push_str(&mut s, "\n");
                proof {
                    let t = messages@.take(j + 1);
                    assert(t.drop_last() =~= messages@.take(j as int));
                    assert(t.last() == messages@[j as int]);
                }
                j = j + 1;
            }
            proof {
                assert(messages@.take(messages.len() as int) =~= messages@);
                let t = self.listing().take(k + 1);
                assert(t.drop_last() =~= self.listing().take(k as int));
                assert(t.last() == self.listing()[k as int]);
            }
            k = k + 1;
        }
        assert(self.listing().take(n as int) =~= self.listing());
        s
    }
}

} // verus!
