use vstd::prelude::*;

use crate::config::{
    config_of_text, fallback_level, fallback_token, level_in, repaired_in, token_in,
};
use crate::document::{parsed_document, Entry};
use crate::loader::{default_document_text, transition, Event, Fatal, Phase, Step};
use crate::severity::{resolved_severity, Severity};

verus! {

/// With no file, the load writes the default document. Once that document is read back
/// and holds a configuration, that configuration is loaded, and a later load of the same
/// file, from the start, gives that same configuration without writing anything.
pub proof fn lemma_creation_then_reload(
    text: String,
    created: (Phase, Option<(Seq<char>, Seq<char>)>, Step),
    after_create: (Phase, Option<(Seq<char>, Seq<char>)>, Step),
    reload: (Phase, Option<(Seq<char>, Seq<char>)>, Step),
)
    requires
        transition(Phase::Start, Event::NotFound, created.0, created.1, created.2),
        text@ == default_document_text(),
        config_of_text(text@) is Some,
        transition(Phase::Created, Event::Read(text), after_create.0, after_create.1, after_create.2),
        transition(Phase::Start, Event::Read(text), reload.0, reload.1, reload.2),
    ensures
        created.0 == Phase::Creating,
        created.2 == Step::CreateFile(text@),
        after_create.0 == Phase::Ready,
        after_create.1 == config_of_text(text@),
        reload.0 == Phase::Ready,
        reload.1 == after_create.1,
        reload.2 is Finish,
{
}

/// A file that holds a configuration as a whole loads to exactly that configuration, and
/// the load asks for no write.
pub proof fn lemma_well_formed_loads_as_is(
    text: String,
    next: Phase,
    snapshot: Option<(Seq<char>, Seq<char>)>,
    step: Step,
)
    requires
        config_of_text(text@) is Some,
        transition(Phase::Start, Event::Read(text), next, snapshot, step),
    ensures
        next == Phase::Ready,
        snapshot == config_of_text(text@),
        step is Finish,
{
}

/// Repair keeps each section that can still be read from the document, whatever the
/// other section holds.
pub proof fn lemma_repair_keeps_readable_sections(doc: Map<Seq<char>, Entry>)
    ensures
        token_in(doc) is Some ==> repaired_in(Some(doc)).1 == token_in(doc).unwrap(),
        token_in(doc) is None ==> repaired_in(Some(doc)).1 == fallback_token(),
        level_in(doc) is Some ==> repaired_in(Some(doc)).0 == level_in(doc).unwrap(),
        level_in(doc) is None ==> repaired_in(Some(doc)).0 == fallback_level(),
{
}

/// Text that is not a TOML document does not load as a whole, and repairs to the
/// fallback values of both sections.
pub proof fn lemma_invalid_document_repairs_to_fallbacks(text: Seq<char>)
    requires
        parsed_document(text) is None,
    ensures
        config_of_text(text) is None,
        repaired_in(parsed_document(text)) == (fallback_level(), fallback_token()),
{
}

/// A file whose log level is empty loads as it is, keeping the empty level, asks for the
/// warning, and resolves to the `Debug` severity.
pub proof fn lemma_empty_level_is_advisory(
    text: String,
    token: Seq<char>,
    next: Phase,
    snapshot: Option<(Seq<char>, Seq<char>)>,
    step: Step,
)
    requires
        config_of_text(text@) == Some((Seq::<char>::empty(), token)),
        transition(Phase::Start, Event::Read(text), next, snapshot, step),
    ensures
        next == Phase::Ready,
        snapshot == Some((Seq::<char>::empty(), token)),
        step == Step::Finish(true),
        resolved_severity(Seq::<char>::empty()) == Severity::Debug,
{
}

/// A read that fails for a reason other than a missing file stops the load, with no
/// configuration.
pub proof fn lemma_read_failure_is_fatal(
    next: Phase,
    snapshot: Option<(Seq<char>, Seq<char>)>,
    step: Step,
)
    requires
        transition(Phase::Start, Event::ReadFailed, next, snapshot, step),
    ensures
        next == Phase::Stopped,
        snapshot is None,
        step == Step::Abort(Fatal::Unreadable),
{
}

} // verus!
