use poet::eval_prompt_document_mdast::ScriptCall;
use poet::prompt_document_component_context::ScriptAnswer;
use poet::eval_prompt_document_mdast::eval_prompt_document_mdast;
use poet::eval_prompt_document_mdast::into_blockquote;
use poet::eval_prompt_document_mdast::EvalPromptDocumentMdastParams;
use poet::eval_prompt_document_mdast::PromptEvalError;
use poet::mdast::MdNode;
use poet::eval_prompt_document_mdast::trim_chunk;
use poet::eval_prompt_document_mdast::MissingChunkPrefix;
use poet::mcp::jsonrpc::role::Role;
use poet::prompt_document_component_context::PromptContextError;
use poet::prompt_document_component_context::PromptDocumentComponentContext;

#[test]
fn test_blockquotes() {
    assert_eq!(
        into_blockquote("foo\nbar\nbaz".to_string()),
        "> foo\n> bar\n> baz".to_string()
    );
}

#[test]
fn test_chunk_trim() -> Result<(), MissingChunkPrefix> {
    assert_eq!(
        trim_chunk(
            r#"
                : foo bar
            "#
            .to_string()
        )?,
        "foo bar".to_string(),
    );

    Ok(())
}

#[test]
fn test_chunk_trim_empty() -> Result<(), MissingChunkPrefix> {
    assert_eq!(trim_chunk("".to_string())?, "".to_string(),);

    Ok(())
}

#[test]
fn blockquote_drops_carriage_return_and_final_newline() {
    assert_eq!(into_blockquote("a\r\nb\n".to_string()), "> a\n> b");
    assert_eq!(into_blockquote("".to_string()), "");
    assert_eq!(into_blockquote("\n".to_string()), "> ");
    assert_eq!(into_blockquote("a\n\nb".to_string()), "> a\n> \n> b");
}

#[test]
fn chunk_without_colon_is_refused() {
    let err = trim_chunk("  no colon ".to_string()).unwrap_err();
    assert_eq!(err.chunk, "  no colon ");
    assert!(trim_chunk("   ".to_string()).is_err());
}

#[test]
fn chunk_keeps_inner_text_after_colon() {
    assert_eq!(trim_chunk(":x : y ".to_string()).unwrap(), "x : y");
    assert_eq!(trim_chunk("\t:\u{a0} z".to_string()).unwrap(), "z");
    assert_eq!(trim_chunk(":".to_string()).unwrap(), "");
}

fn context() -> PromptDocumentComponentContext {
    PromptDocumentComponentContext::new()
}

#[test]
fn flush_fails_when_chunk_present_without_role() -> Result<(), PromptContextError> {
    let mut context = context();

    context.append_to_message("orphan".to_string())?;

    assert!(context.flush().is_err());

    Ok(())
}

#[test]
fn switch_role_flushes_previous_message() -> Result<(), PromptContextError> {
    let mut context = context();

    context.switch_role_to(Role::User)?;
    context.append_to_message("hello".to_string())?;
    context.switch_role_to(Role::Assistant)?;

    assert_eq!(context.prompt_messages.len(), 1);
    assert_eq!(context.prompt_messages[0].role, Role::User);

    Ok(())
}

#[test]
fn rhai_append_accumulates_chunk() -> Result<(), PromptContextError> {
    let mut context = context();

    context.rhai_append_to_message("piece".to_string())?;

    assert!(context.unprocessed_message_chunk.contains("piece"));

    Ok(())
}

#[test]
fn rhai_switch_role_accepts_known_role() -> Result<(), PromptContextError> {
    let mut context = context();

    context.rhai_switch_role_to("assistant".to_string())?;

    assert_eq!(context.current_role, Some(Role::Assistant));

    Ok(())
}

#[test]
fn rhai_switch_role_rejects_unknown_role() {
    let mut context = context();

    assert!(context
        .rhai_switch_role_to("moderator".to_string())
        .is_err());
}

#[test]
fn rhai_switch_role_fails_when_orphan_chunk_cannot_flush() -> Result<(), PromptContextError> {
    let mut context = context();

    context.append_to_message("orphan".to_string())?;

    assert!(context.rhai_switch_role_to("user".to_string()).is_err());

    Ok(())
}

#[test]
fn flush_twice_changes_nothing_the_second_time() {
    let mut context = context();
    context.switch_role_to(Role::User).unwrap();
    context.append_to_message("hi".to_string()).unwrap();
    context.flush().unwrap();
    assert_eq!(context.prompt_messages.len(), 1);
    assert!(context.flush().is_ok());
    assert_eq!(context.prompt_messages.len(), 1);
    assert_eq!(context.current_role, None);
    assert_eq!(context.unprocessed_message_chunk, "");
}

#[test]
fn transcript_keeps_all_text_in_order() {
    let mut context = context();
    context.switch_role_to(Role::User).unwrap();
    context.append_to_message("a".to_string()).unwrap();
    context.append_to_message("".to_string()).unwrap();
    context.append_to_message("b".to_string()).unwrap();
    context.switch_role_to(Role::Assistant).unwrap();
    context.append_to_message("c".to_string()).unwrap();
    context.flush().unwrap();
    let all: String = context
        .prompt_messages
        .iter()
        .map(|m| m.content.text.clone())
        .collect();
    assert_eq!(all, "abc");
    assert_eq!(context.prompt_messages[0].content.text, "ab");
    assert_eq!(context.prompt_messages[1].role, Role::Assistant);
}

#[test]
fn failed_flush_drops_the_orphan_text() {
    let mut context = context();
    context.append_to_message("orphan".to_string()).unwrap();
    assert!(matches!(context.flush(), Err(PromptContextError::NoRoleToFlush)));
    assert_eq!(context.unprocessed_message_chunk, "");
    assert!(context.flush().is_ok());
}

#[test]
fn unknown_role_name_leaves_state_unchanged() {
    let mut context = context();
    context.append_to_message("kept".to_string()).unwrap();
    match context.rhai_switch_role_to("system".to_string()) {
        Err(PromptContextError::UnknownRoleName { name }) => assert_eq!(name, "system"),
        _ => panic!("expected an unknown role name"),
    }
    assert_eq!(context.unprocessed_message_chunk, "kept");
    assert!(matches!(
        context.rhai_switch_role_to("user".to_string()),
        Err(PromptContextError::UnableToSwitchRole)
    ));
}

fn speaker_paragraph(role: &str, said: &str) -> MdNode {
    MdNode::Paragraph(vec![
        MdNode::Strong(vec![MdNode::Text(role.to_string())]),
        MdNode::Text(said.to_string()),
    ])
}

#[test]
fn document_becomes_messages_of_its_speakers() {
    let document = MdNode::Root(vec![
        speaker_paragraph("user", ": Hello there"),
        speaker_paragraph("assistant", ": Hi! *How* can I help?"),
    ]);
    let mut context = PromptDocumentComponentContext::new();

    let output = match eval_prompt_document_mdast(
        &document,
        EvalPromptDocumentMdastParams::document(),
        &mut context,
    ) {
        Ok(output) => output,
        Err(e) => panic!("unexpected {e:?}"),
    };

    assert_eq!(output, "\n: Hello there\n\n: Hi! *How* can I help?\n");
    assert_eq!(context.prompt_messages.len(), 2);
    assert_eq!(context.prompt_messages[0].role, Role::User);
    assert_eq!(context.prompt_messages[0].content.text, "Hello there");
    assert_eq!(context.prompt_messages[1].role, Role::Assistant);
    assert_eq!(context.prompt_messages[1].content.text, "Hi! *How* can I help?");
    assert!(context.current_role.is_none());
}

#[test]
fn unknown_speaker_is_refused() {
    let document = MdNode::Root(vec![speaker_paragraph("moderator", ": hi")]);
    let mut context = PromptDocumentComponentContext::new();

    match eval_prompt_document_mdast(
        &document,
        EvalPromptDocumentMdastParams::document(),
        &mut context,
    ) {
        Err(PromptEvalError::UnknownRole { value }) => assert_eq!(value, "moderator"),
        other => panic!("unexpected {other:?}"),
    }
}

#[test]
fn text_before_any_speaker_is_refused() {
    let document = MdNode::Root(vec![MdNode::Paragraph(vec![MdNode::Text(
        ": orphan".to_string(),
    )])]);
    let mut context = PromptDocumentComponentContext::new();

    assert!(matches!(
        eval_prompt_document_mdast(
            &document,
            EvalPromptDocumentMdastParams::document(),
            &mut context,
        ),
        Err(PromptEvalError::NoRoleToFlush)
    ));
}

#[test]
fn chunk_without_colon_prefix_is_refused() {
    let document = MdNode::Root(vec![speaker_paragraph("user", " no colon")]);
    let mut context = PromptDocumentComponentContext::new();

    match eval_prompt_document_mdast(
        &document,
        EvalPromptDocumentMdastParams::document(),
        &mut context,
    ) {
        Err(PromptEvalError::MissingChunkPrefix { chunk }) => assert_eq!(chunk, "\n no colon\n"),
        other => panic!("unexpected {other:?}"),
    }
}

#[test]
fn nested_markdown_is_tidied() {
    let document = MdNode::Root(vec![
        speaker_paragraph("user", ": see"),
        MdNode::List {
            children: vec![MdNode::ListItem(vec![MdNode::Text("one".to_string())])],
            ordered: false,
        },
    ]);
    let mut context = PromptDocumentComponentContext::new();

    match eval_prompt_document_mdast(
        &document,
        EvalPromptDocumentMdastParams::document(),
        &mut context,
    ) {
        Err(PromptEvalError::MissingChunkPrefix { chunk }) => assert_eq!(chunk, "\n- one\n"),
        other => panic!("unexpected {other:?}"),
    }
}

#[test]
fn html_element_in_a_message_is_written_out() {
    let document = MdNode::Root(vec![MdNode::Paragraph(vec![
        MdNode::Strong(vec![MdNode::Text("user".to_string())]),
        MdNode::Text(": look at ".to_string()),
        MdNode::MdxJsxTextElement {
            attributes: vec![],
            children: vec![MdNode::Text("this".to_string())],
            name: Some("kbd".to_string()),
            rendered: Err("not a component".to_string()),
        },
    ])]);
    let mut context = PromptDocumentComponentContext::new();

    assert!(eval_prompt_document_mdast(
        &document,
        EvalPromptDocumentMdastParams::document(),
        &mut context,
    )
    .is_ok());
    assert_eq!(context.prompt_messages[0].content.text, "look at <kbd >this</kbd>");
}

#[test]
fn heading_is_written_with_a_space_after_its_marks() {
    let heading = MdNode::Heading {
        children: vec![MdNode::Text("Hello".to_string())],
        depth: 2,
    };
    let mut context = PromptDocumentComponentContext::new();

    match eval_prompt_document_mdast(
        &heading,
        EvalPromptDocumentMdastParams::document(),
        &mut context,
    ) {
        Ok(markdown) => assert_eq!(markdown, "## Hello"),
        Err(e) => panic!("unexpected {e:?}"),
    }
}

fn paragraph_with_expression(said: &str, expression: &str) -> MdNode {
    MdNode::Paragraph(vec![
        MdNode::Strong(vec![MdNode::Text("user".to_string())]),
        MdNode::Text(said.to_string()),
        MdNode::MdxTextExpression {
            value: expression.to_string(),
            rendered: Err("not used in prompts".to_string()),
        },
    ])
}

#[test]
fn script_without_an_answer_is_asked_for_with_the_state_at_its_place() {
    let document = MdNode::Root(vec![paragraph_with_expression(": hi ", "name")]);
    let mut context = PromptDocumentComponentContext::new();

    match eval_prompt_document_mdast(
        &document,
        EvalPromptDocumentMdastParams::document(),
        &mut context,
    ) {
        Err(PromptEvalError::ScriptPending {
            call: ScriptCall::Expression { value },
        }) => assert_eq!(value, "name"),
        other => panic!("unexpected {other:?}"),
    }
    assert_eq!(context.current_role, Some(Role::User));
    assert_eq!(context.scripts_run, 0);
}

#[test]
fn script_answer_is_written_and_its_text_joins_the_pending_message() {
    let document = MdNode::Root(vec![paragraph_with_expression(": hi ", "name")]);
    let mut context = PromptDocumentComponentContext::with_script_answers(vec![ScriptAnswer {
        output: Ok("Ann".to_string()),
        cleared_pending: false,
        appended: "Note. ".to_string(),
    }]);

    match eval_prompt_document_mdast(
        &document,
        EvalPromptDocumentMdastParams::document(),
        &mut context,
    ) {
        Ok(output) => assert_eq!(output, "\n: hi Ann\n"),
        Err(e) => panic!("unexpected {e:?}"),
    }
    assert_eq!(context.scripts_run, 1);
    assert_eq!(context.prompt_messages.len(), 1);
    assert_eq!(context.prompt_messages[0].content.text, "Note. hi Ann");
}

#[test]
fn script_that_flushes_drops_the_pending_text() {
    let document = MdNode::Root(vec![
        speaker_paragraph("user", ": first"),
        MdNode::Paragraph(vec![
            MdNode::Text(": ".to_string()),
            MdNode::MdxTextExpression {
                value: "flush()".to_string(),
                rendered: Err("not used in prompts".to_string()),
            },
        ]),
    ]);
    let mut context = PromptDocumentComponentContext::with_script_answers(vec![ScriptAnswer {
        output: Ok("second".to_string()),
        cleared_pending: true,
        appended: String::new(),
    }]);

    match eval_prompt_document_mdast(
        &document,
        EvalPromptDocumentMdastParams::document(),
        &mut context,
    ) {
        Ok(output) => assert_eq!(output, "\n: first\n\n: second\n"),
        Err(e) => panic!("unexpected {e:?}"),
    }
    assert_eq!(context.prompt_messages.len(), 1);
    assert_eq!(context.prompt_messages[0].role, Role::User);
    assert_eq!(context.prompt_messages[0].content.text, "second");
}

#[test]
fn failing_script_fails_the_document() {
    let document = MdNode::Root(vec![paragraph_with_expression(": hi ", "boom()")]);
    let mut context = PromptDocumentComponentContext::with_script_answers(vec![ScriptAnswer {
        output: Err("script failed".to_string()),
        cleared_pending: false,
        appended: String::new(),
    }]);

    match eval_prompt_document_mdast(
        &document,
        EvalPromptDocumentMdastParams::document(),
        &mut context,
    ) {
        Err(PromptEvalError::Host { message }) => assert_eq!(message, "script failed"),
        other => panic!("unexpected {other:?}"),
    }
}

#[test]
fn component_is_asked_for_with_its_evaluated_children() {
    let document = MdNode::Root(vec![MdNode::Paragraph(vec![
        MdNode::Strong(vec![MdNode::Text("user".to_string())]),
        MdNode::Text(": ".to_string()),
        MdNode::MdxJsxTextElement {
            attributes: vec![],
            children: vec![MdNode::Emphasis(vec![MdNode::Text("x".to_string())])],
            name: Some("Card".to_string()),
            rendered: Err("not used in prompts".to_string()),
        },
    ])]);
    let mut context = PromptDocumentComponentContext::new();

    match eval_prompt_document_mdast(
        &document,
        EvalPromptDocumentMdastParams::document(),
        &mut context,
    ) {
        Err(PromptEvalError::ScriptPending {
            call: ScriptCall::Component { name, props, children },
        }) => {
            assert_eq!(name, "Card");
            assert!(props.is_empty());
            assert_eq!(children, "*x*");
        }
        other => panic!("unexpected {other:?}"),
    }
}
