use liege_gateway::controllers::interactions::{
    authenticate, error_message, handle_interaction, handle_interaction_error, post, Admission,
    Reply, Route,
};
use liege_gateway::lifecycle::{take_work, Action, Attempt, Outcome, Run};
use liege_gateway::models::api::code::{ExecuteResponse, ExecuteStage};
use liege_gateway::models::reply::{Followup, ResponsePattern};
use liege_gateway::handlers::commands::code::{CodeCommand, CodeStep};
use liege_gateway::signature::{HeaderValue, SignatureVerifier};
use liege_gateway::error::Error;
use liege_gateway::handlers::commands::CommandKind;
use liege_gateway::handlers::modals::ModalKind;
use liege_gateway::models::custom_id::CustomIdError;
use liege_gateway::models::interaction::{
    CommandInteraction, CommandOption, Interaction, ModalComponent, ModalInteraction, OptionValue,
};

fn command(name: &str) -> Interaction {
    Interaction::Command(CommandInteraction {
        id: 1,
        user_id: 2,
        name: name.to_string(),
        options: vec![],
    })
}

fn modal(custom_id: &str) -> Interaction {
    Interaction::Modal(ModalInteraction {
        id: 1,
        custom_id: custom_id.to_string(),
        rows: vec![vec![ModalComponent::InputText(Some("1+1".to_string()))]],
    })
}

#[test]
fn ping_is_answered_with_a_pong_and_not_handled() {
    assert_eq!(
        post(Admission::Read, Some(Interaction::Ping)),
        (Reply::Pong, None)
    );
    assert_eq!(Reply::Pong.status(), 200);
}

#[test]
fn unreadable_body_is_a_bad_request() {
    assert_eq!(post(Admission::Read, None), (Reply::BadRequest, None));
    assert_eq!(Reply::BadRequest.status(), 400);
    assert_eq!(Reply::BadRequest.text(), "failed to parse json");
}

#[test]
fn every_other_event_is_accepted_and_handed_on() {
    for event in [
        command("math"),
        command("unregistered"),
        modal("code,rust"),
        Interaction::Component,
        Interaction::Other,
    ] {
        assert_eq!(
            post(Admission::Read, Some(event.clone())),
            (Reply::Accepted, Some(event))
        );
    }
    assert_eq!(Reply::Accepted.status(), 202);
    assert_eq!(Reply::Accepted.text(), "");
}

#[test]
fn commands_are_routed_by_exact_name() {
    assert_eq!(
        handle_interaction(&command("math")),
        Ok(Route::Command(CommandKind::Math))
    );
    assert_eq!(
        handle_interaction(&command("ai")),
        Ok(Route::Command(CommandKind::Ai))
    );
    assert_eq!(
        handle_interaction(&command("code")),
        Ok(Route::Command(CommandKind::Code))
    );
    for name in ["Math", "math ", "", "maths", "launch"] {
        assert_eq!(
            handle_interaction(&command(name)),
            Err(Error::UnknownCommand(name.to_string()))
        );
    }
}

#[test]
fn unknown_command_is_told_to_the_user() {
    let error = handle_interaction(&command("nope")).unwrap_err();
    assert_eq!(error.message(), "Command with name 'nope' not found");
    assert_eq!(
        error_message(&error),
        "Failed to handle interaction:\n```\nCommand with name 'nope' not found\n```"
    );
    // nothing was acknowledged yet: the message is the answer to the event
    assert_eq!(
        handle_interaction_error(&command("nope"), false),
        Run::Reporting(Attempt::CreateResponse)
    );
}

#[test]
fn forms_are_routed_by_the_name_in_their_identifier() {
    assert_eq!(
        handle_interaction(&modal("code,rust")),
        Ok(Route::Modal(ModalKind::Code))
    );
    assert_eq!(
        handle_interaction(&modal("code")),
        Ok(Route::Modal(ModalKind::Code))
    );
    assert_eq!(
        handle_interaction(&modal("poll,1")),
        Err(Error::UnknownModal("poll".to_string()))
    );
    assert_eq!(
        handle_interaction(&modal("")),
        Err(Error::CustomId(CustomIdError::Parse))
    );
    assert_eq!(
        handle_interaction(&modal("poll,1")).unwrap_err().message(),
        "Modal with ID 'poll' not found"
    );
}

#[test]
fn other_events_are_ignored() {
    assert_eq!(handle_interaction(&Interaction::Ping), Ok(Route::Ignored));
    assert_eq!(handle_interaction(&Interaction::Component), Ok(Route::Ignored));
    assert_eq!(handle_interaction(&Interaction::Other), Ok(Route::Ignored));
}

#[test]
fn refused_request_is_answered_with_the_refusal_and_nothing_is_handed_on() {
    let refusal = Admission::Refuse(Reply::Unauthorized);
    assert_eq!(post(refusal, None), (Reply::Unauthorized, None));
    // whatever the body holds
    assert_eq!(
        post(refusal, Some(Interaction::Ping)),
        (Reply::Unauthorized, None)
    );
    assert_eq!(post(refusal, Some(command("math"))), (Reply::Unauthorized, None));
    assert_eq!(Reply::Unauthorized.status(), 401);
}

#[test]
fn failure_is_reported_only_for_events_that_are_answered() {
    for acknowledged in [false, true] {
        let opening = if acknowledged {
            Attempt::CreateFollowup
        } else {
            Attempt::CreateResponse
        };
        for event in [command("math"), Interaction::Component, modal("code,rust")] {
            assert_eq!(
                handle_interaction_error(&event, acknowledged),
                Run::Reporting(opening)
            );
        }
        for event in [Interaction::Ping, Interaction::Other] {
            assert_eq!(
                handle_interaction_error(&event, acknowledged),
                Run::Finished(Outcome::NotOwed)
            );
        }
    }
}

#[test]
fn failure_after_an_acknowledgment_goes_out_as_a_followup_then_by_an_edit() {
    let start = handle_interaction_error(&command("code"), true);
    assert_eq!(start.action(), Action::Report(Attempt::CreateFollowup));
    assert_eq!(
        start.sent(true),
        Run::Finished(Outcome::Reported(Attempt::CreateFollowup))
    );
    let second = start.sent(false);
    assert_eq!(second.action(), Action::Report(Attempt::EditResponse));
    assert_eq!(
        second.sent(true),
        Run::Finished(Outcome::Reported(Attempt::EditResponse))
    );
    let end = second.sent(false);
    assert_eq!(end, Run::Finished(Outcome::GivenUp));
    assert_eq!(end.action(), Action::Stop);
    assert_eq!(end.sent(true), end);
    assert_eq!(end.sent(false), end);
    assert_eq!(end.worked(3, true), end);
}

#[test]
fn failure_before_an_acknowledgment_goes_out_as_the_answer_then_by_an_edit() {
    let start = handle_interaction_error(&command("code"), false);
    assert_eq!(start.action(), Action::Report(Attempt::CreateResponse));
    assert_eq!(
        start.sent(true),
        Run::Finished(Outcome::Reported(Attempt::CreateResponse))
    );
    let second = start.sent(false);
    assert_eq!(second.action(), Action::Report(Attempt::EditResponse));
    assert_eq!(second.sent(false), Run::Finished(Outcome::GivenUp));
}

#[test]
fn error_messages() {
    let cases: Vec<(Error, &str)> = vec![
        (Error::MissingExpression, "Failed to get expression"),
        (
            Error::ExpressionNotText,
            "Failed to get expression value as string",
        ),
        (Error::MissingLanguage, "Failed to get language"),
        (
            Error::LanguageNotText,
            "Failed to get language value as string",
        ),
        (
            Error::MissingModalLanguage,
            "Failed to get language from custom id",
        ),
        (Error::MissingCodeRow, "Failed to get code action row"),
        (Error::MissingCodeComponent, "Failed to get code component"),
        (Error::CodeNotText, "Failed to get code input"),
        (Error::MissingSubcommand, "Failed to get subcommand"),
        (
            Error::NotSubcommand,
            "Failed to get option value as subcommand",
        ),
        (
            Error::InvalidSubcommand("video".to_string()),
            "Invalid subcommand name video",
        ),
        (Error::MissingPrompt, "Failed to get prompt"),
        (Error::PromptNotText, "Failed to get prompt as string"),
        (Error::NoImage, "No image URL or data URL"),
        (
            Error::DataUrl("MissingComma".to_string()),
            "Failed to parse data URL: MissingComma",
        ),
        (
            Error::Collaborator("connection reset".to_string()),
            "connection reset",
        ),
        (
            Error::CustomId(CustomIdError::Parse),
            "failed to parse custom id",
        ),
        (
            Error::CustomId(CustomIdError::TooLong(101)),
            "custom id length 101 exceeds maximum of 100",
        ),
        (
            Error::CustomId(CustomIdError::TooLong(1234567890)),
            "custom id length 1234567890 exceeds maximum of 100",
        ),
    ];
    for (error, expected) in cases {
        assert_eq!(error.message(), expected);
    }
}

fn signed_code_command() -> (Interaction, CommandInteraction) {
    let verifier = SignatureVerifier::new(
        "573d53b99a71c5560c5fffc75cc0849b01ba3ca59b435fe945c211c93af90414",
    )
    .unwrap();
    let signature = HeaderValue::Text("e7a9bbcdc8c0d293c546872a64f1cc537c29956f4666d49d106f113a577f80335a1dcc4e0584aa9fa588d1a295e35c469a7e3a72bbcefeeb27bde8d3ceb73802".to_string());
    let timestamp = HeaderValue::Text("1700000000".to_string());
    let admission = authenticate(&verifier, &signature, &timestamp, Some(b"{\"type\":1}"));
    assert_eq!(admission, Admission::Read);

    let invoked = CommandInteraction {
        id: 7,
        user_id: 8,
        name: "code".to_string(),
        options: vec![
            CommandOption {
                name: "language".to_string(),
                value: OptionValue::String("rust".to_string()),
            },
            CommandOption {
                name: "code".to_string(),
                value: OptionValue::String("fn main() {}".to_string()),
            },
        ],
    };
    let (reply, task) = post(admission, Some(Interaction::Command(invoked.clone())));
    assert_eq!(reply.status(), 202);
    (task.unwrap(), invoked)
}

#[test]
fn signed_command_for_a_slow_handler_ends_in_one_delivery() {
    let (task, invoked) = signed_code_command();
    assert_eq!(
        handle_interaction(&task),
        Ok(Route::Command(CommandKind::Code))
    );
    let step = CodeCommand::handle_command(&invoked).unwrap();
    assert!(matches!(step, CodeStep::Execute(_)));
    assert_eq!(step.pattern(), ResponsePattern::Deferred);

    // the event is acknowledged, then the work is done
    let run = Run::start(step.pattern());
    assert_eq!(run.action(), Action::Defer);
    let run = run.sent(true);
    assert_eq!(run.action(), Action::Work);
    assert!(run.acknowledged());

    // the execution service answers: one followup with the reply, and the run is over
    let answer = ExecuteResponse {
        language: "rust".to_string(),
        version: "1.68.2".to_string(),
        run: ExecuteStage {
            stdout: "hi".to_string(),
            stderr: String::new(),
            output: "hi".to_string(),
            code: Some(0),
            signal: None,
        },
        compile: None,
    };
    let (run, worked) = take_work(run, CodeCommand::executed(Ok(answer.clone())));
    assert_eq!(
        worked.messages,
        vec![Followup::Embed(CodeCommand::respond(&answer))]
    );
    assert_eq!(worked.failure, None);
    assert_eq!(run.action(), Action::FollowUp(0));
    let run = run.sent(true);
    assert_eq!(run, Run::Finished(Outcome::Completed));
    assert_eq!(run.action(), Action::Stop);
}

#[test]
fn failing_collaborator_of_a_slow_handler_ends_in_one_delivery_of_the_failure() {
    let (_, invoked) = signed_code_command();
    let step = CodeCommand::handle_command(&invoked).unwrap();
    let run = Run::start(step.pattern()).sent(true);

    // the execution service fails: nothing of the handler's goes out, and the
    // user is told by one followup
    let failure = Error::Collaborator("error sending request".to_string());
    let (run, worked) = take_work(run, CodeCommand::executed(Err(failure.clone())));
    assert!(worked.messages.is_empty());
    assert_eq!(worked.failure, Some(failure.clone()));
    assert_eq!(run.action(), Action::Report(Attempt::CreateFollowup));
    assert_eq!(
        error_message(&failure),
        "Failed to handle interaction:\n```\nerror sending request\n```"
    );
    let run = run.sent(true);
    assert_eq!(
        run,
        Run::Finished(Outcome::Reported(Attempt::CreateFollowup))
    );
    assert_eq!(run.action(), Action::Stop);
}
