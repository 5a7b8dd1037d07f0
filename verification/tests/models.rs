use liege_gateway::args::{Cli, Command};
use liege_gateway::controllers::ai::{
    conversation, generate_image, generate_text, image_address, stream_piece, stream_step,
    AiEvent, AiHistoryMessage, AiModelType, AiRequest, AiTask, StreamEvent, StreamStep,
};
use liege_gateway::controllers::code::{execute_code, CodeRequest};
use liege_gateway::controllers::config::get;
use liege_gateway::controllers::token::{get_discord_oauth_token, TokenFailure};
use liege_gateway::env::Env;
use liege_gateway::error::Error;
use liege_gateway::handlers::commands::ai::AiCommand;
use liege_gateway::handlers::commands::code::{execute_request, CodeCommand};
use liege_gateway::handlers::commands::math::MathCommand;
use liege_gateway::math::BufferWriter;
use liege_gateway::models::api::ai::{
    GenerateImageRequest, GenerateImageResponse, GenerateTextMessage, GenerateTextMessageRole,
    GenerateTextRequest, GenerateTextStreamResponse,
};
use liege_gateway::models::api::code::{ExecuteFile, ExecuteRequest};
use liege_gateway::models::auth::{Claims, DiscordTokenResponse, TokenResponse, User};
use liege_gateway::models::registration::{
    CommandOptionType, CommandType, InstallationContext, InteractionContext,
};
use liege_gateway::registry::{
    entry_point_command, register_commands, stale_entry_point, RegisteredCommand,
};

#[test]
fn execute_file_builders() {
    let file = ExecuteFile::new();
    assert_eq!(file.name, None);
    assert_eq!(file.content, "");
    assert_eq!(file.encoding, None);
    let file = file.name("main.rs").content("fn main() {}").encoding("utf8");
    assert_eq!(file.name, Some("main.rs".to_string()));
    assert_eq!(file.content, "fn main() {}");
    assert_eq!(file.encoding, Some("utf8".to_string()));
    let renamed = file.clone().name("lib.rs");
    assert_eq!(renamed.name, Some("lib.rs".to_string()));
    assert_eq!(renamed.content, file.content);
    assert_eq!(renamed.encoding, file.encoding);
}

#[test]
fn execute_request_builders() {
    let empty = ExecuteRequest::new();
    assert_eq!(empty.language, "");
    assert_eq!(empty.version, "");
    assert!(empty.files.is_empty());
    assert_eq!(empty.stdin, None);
    assert_eq!(empty.args, None);
    assert_eq!(empty.run_timeout, None);
    assert_eq!(empty.compile_timeout, None);
    assert_eq!(empty.compile_memory_limit, None);
    assert_eq!(empty.run_memory_limit, None);

    let request = ExecuteRequest::new()
        .language("python")
        .version("3.10")
        .add_file(ExecuteFile::new().content("print(1)"))
        .add_file(ExecuteFile::new().name("b.py"))
        .stdin("input")
        .args(vec!["-v".to_string()])
        .run_timeout(3000)
        .compile_timeout(10000)
        .compile_memory_limit(-1)
        .run_memory_limit(123456);
    assert_eq!(request.language, "python");
    assert_eq!(request.version, "3.10");
    assert_eq!(request.files.len(), 2);
    assert_eq!(request.files[0].content, "print(1)");
    assert_eq!(request.files[1].name, Some("b.py".to_string()));
    assert_eq!(request.stdin, Some("input".to_string()));
    assert_eq!(request.args, Some(vec!["-v".to_string()]));
    assert_eq!(request.run_timeout, Some(3000));
    assert_eq!(request.compile_timeout, Some(10000));
    assert_eq!(request.compile_memory_limit, Some(-1));
    assert_eq!(request.run_memory_limit, Some(123456));

    let replaced = request.clone().files(vec![]);
    assert!(replaced.files.is_empty());
    assert_eq!(replaced.language, "python");
    assert_eq!(replaced.run_memory_limit, Some(123456));
}

#[test]
fn generate_text_request_builders() {
    let empty = GenerateTextRequest::new();
    assert_eq!(empty.model, "");
    assert!(empty.messages.is_empty());
    assert!(empty.predefined_messages.is_empty());
    assert!(!empty.stream);

    let first = GenerateTextMessage::new(GenerateTextMessageRole::System, "be brief");
    assert_eq!(first.role, GenerateTextMessageRole::System);
    assert_eq!(first.content, "be brief");
    let second = GenerateTextMessage::new(GenerateTextMessageRole::Tool, "42");
    let request = GenerateTextRequest::new()
        .model("m")
        .add_message(first.clone())
        .add_message(second.clone())
        .predefined_messages(vec!["intro".to_string()])
        .stream(true);
    assert_eq!(request.model, "m");
    assert_eq!(request.messages, vec![first.clone(), second]);
    assert_eq!(request.predefined_messages, vec!["intro".to_string()]);
    assert!(request.stream);
    let replaced = request.messages(vec![first.clone()]);
    assert_eq!(replaced.messages, vec![first]);
    assert_eq!(replaced.model, "m");
    assert!(replaced.stream);
}

#[test]
fn generate_image_request_builders() {
    let empty = GenerateImageRequest::new();
    assert_eq!(empty.source, "");
    assert_eq!(empty.prompt, "");
    let request = GenerateImageRequest::new().source("s").prompt("p");
    assert_eq!(request.source, "s");
    assert_eq!(request.prompt, "p");
    let again = request.prompt("q").source("t");
    assert_eq!(again.source, "t");
    assert_eq!(again.prompt, "q");
}

#[test]
fn token_response_is_a_bearer() {
    let response = TokenResponse::new("credential", "access");
    assert_eq!(response.token, "credential");
    assert_eq!(response.discord_access_token, "access");
    assert_eq!(response.token_type, "Bearer");
}

fn user(global_name: Option<&str>, avatar_url: Option<&str>) -> User {
    User {
        id: 42,
        name: "ferris".to_string(),
        global_name: global_name.map(|name| name.to_string()),
        avatar_url: avatar_url.map(|url| url.to_string()),
        default_avatar_url: "https://cdn.example/embed/avatars/0.png".to_string(),
    }
}

fn granted(expires_in: i64) -> DiscordTokenResponse {
    DiscordTokenResponse {
        access_token: "access".to_string(),
        token_type: "Bearer".to_string(),
        expires_in,
        refresh_token: "refresh".to_string(),
        scope: "identify".to_string(),
    }
}

#[test]
fn claims_end_after_the_access_token() {
    let claims = Claims::issued_at(
        &user(Some("Ferris"), Some("https://cdn.example/a.png")),
        &granted(604800),
        1700000000,
    )
    .unwrap();
    assert_eq!(claims.sub, 42);
    assert_eq!(claims.exp, 1700604800);
    assert_eq!(claims.username, "ferris");
    assert_eq!(claims.display_name, "Ferris");
    assert_eq!(claims.avatar, "https://cdn.example/a.png");
    assert_eq!(claims.discord_access_token, "access");
}

#[test]
fn claims_fall_back_to_the_user_name_and_the_stand_in_picture() {
    let claims = Claims::issued_at(&user(None, None), &granted(10), 5).unwrap();
    assert_eq!(claims.exp, 15);
    assert_eq!(claims.display_name, "ferris");
    assert_eq!(claims.avatar, "https://cdn.example/embed/avatars/0.png");
}

#[test]
fn claims_whose_end_cannot_be_counted_are_not_made() {
    assert_eq!(Claims::issued_at(&user(None, None), &granted(i64::MAX), 1), None);
    assert_eq!(Claims::issued_at(&user(None, None), &granted(i64::MIN), -1), None);
    assert_eq!(
        Claims::issued_at(&user(None, None), &granted(i64::MAX), 0)
            .unwrap()
            .exp,
        i64::MAX
    );
    assert_eq!(Claims::new(&user(None, None), &granted(i64::MAX)), None);
}

#[test]
fn claims_made_now_end_in_the_future() {
    let before = std::time::SystemTime::now()
        .duration_since(std::time::UNIX_EPOCH)
        .unwrap()
        .as_secs() as i64;
    let claims = Claims::new(&user(None, None), &granted(3600)).unwrap();
    let after = std::time::SystemTime::now()
        .duration_since(std::time::UNIX_EPOCH)
        .unwrap()
        .as_secs() as i64;
    assert!(before + 3600 <= claims.exp && claims.exp <= after + 3600);
    assert_eq!(claims.sub, 42);
    assert_eq!(claims.discord_access_token, "access");
}

#[test]
fn cli_serves_unless_told_otherwise() {
    assert_eq!(Cli { command: None }.command(), Command::Run);
    assert_eq!(
        Cli {
            command: Some(Command::Run)
        }
        .command(),
        Command::Run
    );
    let register = Command::RegisterCommands {
        guild_id: Some("123".to_string()),
    };
    assert_eq!(
        Cli {
            command: Some(register.clone())
        }
        .command(),
        register
    );
    assert_eq!(
        Cli {
            command: Some(Command::RegisterCommands { guild_id: None })
        }
        .command(),
        Command::RegisterCommands { guild_id: None }
    );
}

#[test]
fn config_shows_only_the_application() {
    let env = Env {
        ai_token: "a".to_string(),
        code_token: "b".to_string(),
        discord_app_id: "1234".to_string(),
        discord_client_secret: "c".to_string(),
        discord_token: "d".to_string(),
        discord_public_key: "e".to_string(),
        jwt_secret: "f".to_string(),
    };
    assert_eq!(get(&env).discord_app_id, "1234");
}

#[test]
fn math_endpoint_answers_with_what_evaluating_gave() {
    let good = liege_gateway::controllers::math::post(Ok("2".to_string()));
    assert!(good.success);
    assert_eq!(good.output, "2");
    let bad = liege_gateway::controllers::math::post(Err("no".to_string()));
    assert!(!bad.success);
    assert_eq!(bad.output, "no");
}

#[test]
fn code_endpoint_runs_any_version() {
    let body = CodeRequest {
        language: "cpp".to_string(),
        code: "int main() {}".to_string(),
    };
    let request = liege_gateway::controllers::code::post(&body);
    assert_eq!(request, execute_request("cpp", "int main() {}"));
    assert_eq!(request, execute_code("cpp", "int main() {}"));
    assert_eq!(request.version, "*");
}

#[test]
fn ai_endpoint_continues_the_conversation() {
    let body = AiRequest {
        model_type: AiModelType::Text,
        prompt: "and then?".to_string(),
        history: Some(vec![
            AiHistoryMessage::User("hello".to_string()),
            AiHistoryMessage::Bot("hi".to_string()),
        ]),
    };
    let AiTask::Text(request) = liege_gateway::controllers::ai::post(&body) else {
        panic!("expected a text request");
    };
    assert_eq!(request.model, "llama-3-8b-instruct");
    assert!(request.stream);
    assert_eq!(
        request.messages,
        vec![
            GenerateTextMessage::new(GenerateTextMessageRole::User, "hello"),
            GenerateTextMessage::new(GenerateTextMessageRole::Assistant, "hi"),
            GenerateTextMessage::new(GenerateTextMessageRole::User, "and then?"),
        ]
    );
    assert_eq!(request, generate_text(conversation(body.history.as_ref().unwrap(), "and then?")));
}

#[test]
fn ai_endpoint_without_history_sends_the_prompt_alone() {
    let body = AiRequest {
        model_type: AiModelType::Text,
        prompt: "hello".to_string(),
        history: None,
    };
    let AiTask::Text(request) = liege_gateway::controllers::ai::post(&body) else {
        panic!("expected a text request");
    };
    assert_eq!(
        request.messages,
        vec![GenerateTextMessage::new(
            GenerateTextMessageRole::User,
            "hello"
        )]
    );
}

#[test]
fn ai_endpoint_asks_for_a_picture() {
    let body = AiRequest {
        model_type: AiModelType::Image,
        prompt: "a crab".to_string(),
        history: Some(vec![AiHistoryMessage::User("ignored".to_string())]),
    };
    assert_eq!(
        liege_gateway::controllers::ai::post(&body),
        AiTask::Image(generate_image("a crab"))
    );
    assert_eq!(generate_image("a crab").source, "flux-1-schnell");
    assert_eq!(generate_image("a crab").prompt, "a crab");
}

#[test]
fn picture_is_at_its_address_or_else_in_its_data_address() {
    let answer = |image_url: Option<&str>, data_url: Option<&str>| GenerateImageResponse {
        image_url: image_url.map(|url| url.to_string()),
        data_url: data_url.map(|url| url.to_string()),
    };
    assert_eq!(
        image_address(answer(Some("https://a"), Some("data:,b"))),
        Ok("https://a".to_string())
    );
    assert_eq!(
        image_address(answer(None, Some("data:,b"))),
        Ok("data:,b".to_string())
    );
    assert_eq!(image_address(answer(None, None)), Err(Error::NoImage));
}

#[test]
fn stream_passes_on_only_messages() {
    assert_eq!(stream_step(StreamEvent::Open), StreamStep::Skip);
    assert_eq!(stream_step(StreamEvent::Failed), StreamStep::Skip);
    assert_eq!(
        stream_step(StreamEvent::Message("[DONE]".to_string())),
        StreamStep::Emit(AiEvent::Done)
    );
    assert_eq!(
        stream_step(StreamEvent::Message("{\"response\":\"x\"}".to_string())),
        StreamStep::Read("{\"response\":\"x\"}".to_string())
    );
    assert_eq!(
        stream_step(StreamEvent::Message("[done]".to_string())),
        StreamStep::Read("[done]".to_string())
    );
    assert_eq!(
        stream_piece(Some(GenerateTextStreamResponse {
            response: "x".to_string()
        })),
        Some(AiEvent::Response("x".to_string()))
    );
    assert_eq!(stream_piece(None), None);
}

#[test]
fn sign_in_form_and_failures() {
    let form = get_discord_oauth_token("app", "secret", "abc");
    let pairs: Vec<(&str, &str)> = form
        .iter()
        .map(|field| (field.name.as_str(), field.value.as_str()))
        .collect();
    assert_eq!(
        pairs,
        vec![
            ("client_id", "app"),
            ("client_secret", "secret"),
            ("grant_type", "authorization_code"),
            ("code", "abc"),
        ]
    );
    assert_eq!(TokenFailure::Exchange.text(), "failed to get token");
    assert_eq!(TokenFailure::User.text(), "failed to get user");
    assert_eq!(TokenFailure::Credential.text(), "failed to create token");
}

#[test]
fn buffer_collects_what_is_written() {
    let mut writer = BufferWriter::new();
    assert!(writer.buffer.is_empty());
    assert_eq!(writer.write(b"abc"), 3);
    assert_eq!(writer.write(b""), 0);
    assert_eq!(writer.write(b"de"), 2);
    assert_eq!(writer.buffer, b"abcde".to_vec());
    assert!(!writer.supports_color());
}

#[test]
fn commands_are_described_for_registration() {
    let math = MathCommand::command();
    assert_eq!(math.name, "math");
    assert_eq!(math.description, "Evaluate a math expression");
    assert_eq!(math.kind, CommandType::ChatInput);
    assert_eq!(
        math.integration_types,
        vec![InstallationContext::Guild, InstallationContext::User]
    );
    assert_eq!(
        math.contexts,
        vec![
            InteractionContext::Guild,
            InteractionContext::BotDm,
            InteractionContext::PrivateChannel
        ]
    );
    assert_eq!(math.options.len(), 1);
    assert_eq!(math.options[0].kind, CommandOptionType::String);
    assert_eq!(math.options[0].name, "expression");
    assert_eq!(math.options[0].description, "The expression to evaluate");
    assert!(!math.options[0].required);

    let code = CodeCommand::command();
    assert_eq!(code.name, "code");
    assert_eq!(code.description, "Execute code");
    assert_eq!(code.options.len(), 2);
    assert_eq!(code.options[0].name, "language");
    assert_eq!(code.options[0].description, "Programming language to use");
    assert!(code.options[0].required);
    let choices: Vec<(&str, &str)> = code.options[0]
        .choices
        .iter()
        .map(|choice| (choice.name.as_str(), choice.value.as_str()))
        .collect();
    assert_eq!(
        choices,
        vec![
            ("JavaScript", "js"),
            ("C++", "cpp"),
            ("Shell (bash)", "bash"),
            ("Rust", "rust"),
            ("Python", "python")
        ]
    );
    assert_eq!(code.options[1].name, "code");
    assert_eq!(code.options[1].description, "The code to execute");
    assert!(!code.options[1].required);
    assert!(code.options[1].choices.is_empty());

    let ai = AiCommand::command();
    assert_eq!(ai.name, "ai");
    assert_eq!(ai.description, "Liege AI");
    assert_eq!(ai.options.len(), 2);
    for (option, name, description, prompt) in [
        (&ai.options[0], "text", "Chat with Liege", "Prompt for the AI"),
        (
            &ai.options[1],
            "image",
            "Generate an image",
            "Prompt for generating the image",
        ),
    ] {
        assert_eq!(option.kind, CommandOptionType::SubCommand);
        assert_eq!(option.name, name);
        assert_eq!(option.description, description);
        assert_eq!(option.options.len(), 1);
        assert_eq!(option.options[0].kind, CommandOptionType::String);
        assert_eq!(option.options[0].name, "prompt");
        assert_eq!(option.options[0].description, prompt);
        assert!(option.options[0].required);
    }
}

#[test]
fn registration_replaces_the_entry_point() {
    let launch = entry_point_command();
    assert_eq!(launch.name, "launch");
    assert_eq!(launch.description, "Launch the Liege activity");
    assert_eq!(launch.kind, CommandType::PrimaryEntryPoint);
    assert!(launch.launches_activity);
    assert!(launch.options.is_empty());

    let names: Vec<String> = register_commands()
        .into_iter()
        .map(|command| command.name)
        .collect();
    assert_eq!(names, vec!["launch", "math", "code", "ai"]);

    let known = |id: u64, kind: CommandType| RegisteredCommand { id, kind };
    assert_eq!(stale_entry_point(&vec![]), None);
    assert_eq!(
        stale_entry_point(&vec![
            known(1, CommandType::ChatInput),
            known(2, CommandType::Other)
        ]),
        None
    );
    assert_eq!(
        stale_entry_point(&vec![
            known(1, CommandType::ChatInput),
            known(2, CommandType::PrimaryEntryPoint),
            known(3, CommandType::PrimaryEntryPoint)
        ]),
        Some(2)
    );
}
