use ndjson_upsert::address::BaseUrl;
use ndjson_upsert::driver::{
    on_line, on_response, start, step, Action, Config, Event, Fault, Phase, Policy,
};
use ndjson_upsert::extract::{Convention, Request, Verb};
use ndjson_upsert::response::ResponseError;

fn config(convention: Convention, policy: Policy) -> Config {
    Config { base: BaseUrl::new("localhost:9200/idx/_doc"), convention, policy }
}

fn line(text: &str) -> Event {
    Event::Line(String::from(text))
}

fn response(text: &str) -> Event {
    Event::Response(text.as_bytes().to_vec())
}

#[test]
fn run_starts_by_reading() {
    assert_eq!(start(), (Phase::AwaitingLine, Action::Read));
}

#[test]
fn one_record_goes_through_the_three_phases() {
    let config = config(Convention::SplitEnvelope, Policy::Abort);
    let (phase, action) =
        step(&config, Phase::AwaitingLine, line("{\"_id\":\"7\",\"_source\":{\"k\":1}}"));
    assert_eq!(phase, Phase::Executing);
    assert_eq!(
        action,
        Action::Send(Request {
            verb: Verb::Put,
            target: String::from("localhost:9200/idx/_doc/7"),
            header: "Content-Type: application/json",
            body: String::from("{\"k\":1}"),
        })
    );
    let (phase, action) = step(&config, phase, response("{\"_id\":\"7\",\"result\":\"created\"}"));
    assert_eq!(phase, Phase::Emitting);
    assert_eq!(action, Action::Emit(String::from("\"7\": \"created\"")));
    let (phase, action) = step(&config, phase, Event::Written);
    assert_eq!(phase, Phase::AwaitingLine);
    assert_eq!(action, Action::Read);
    let (phase, action) = step(&config, phase, Event::EndOfInput);
    assert_eq!(phase, Phase::Done);
    assert_eq!(action, Action::Finish);
    assert_eq!(action.exit_code(), Some(0));
}

#[test]
fn empty_line_gives_no_request_and_no_output() {
    for policy in [Policy::Abort, Policy::SkipAndReport] {
        for convention in [Convention::EmbeddedId, Convention::SplitEnvelope] {
            let config = config(convention, policy);
            assert_eq!(
                step(&config, Phase::AwaitingLine, line("")),
                (Phase::AwaitingLine, Action::Read)
            );
        }
    }
}

#[test]
fn run_of_empty_lines_only_reads() {
    let config = config(Convention::EmbeddedId, Policy::Abort);
    let mut phase = Phase::AwaitingLine;
    for _ in 0..5 {
        let (next, action) = step(&config, phase, line(""));
        assert_eq!(action, Action::Read);
        phase = next;
    }
    assert_eq!(step(&config, phase, Event::EndOfInput), (Phase::Done, Action::Finish));
}

#[test]
fn line_of_blanks_is_not_empty() {
    let config = config(Convention::EmbeddedId, Policy::Abort);
    assert_eq!(
        step(&config, Phase::AwaitingLine, line("  ")),
        (Phase::Aborted, Action::Abort(Fault::Record))
    );
}

#[test]
fn malformed_line_aborts_and_nothing_follows() {
    let config = config(Convention::EmbeddedId, Policy::Abort);
    let (phase, action) = step(&config, Phase::AwaitingLine, line("{\"id\":\"42\""));
    assert_eq!(phase, Phase::Aborted);
    assert_eq!(action, Action::Abort(Fault::Record));
    assert_eq!(action.exit_code(), Some(1));
    let later = [
        line("{\"id\":\"43\",\"name\":\"y\"}"),
        response("{\"_id\":\"43\",\"result\":\"created\"}"),
        Event::Written,
        Event::EndOfInput,
    ];
    let mut phase = phase;
    for event in later {
        let (next, action) = step(&config, phase, event);
        assert_eq!(next, Phase::Aborted);
        assert_eq!(action, Action::Halt);
        assert_eq!(action.exit_code(), None);
        phase = next;
    }
}

#[test]
fn malformed_line_is_reported_and_the_run_goes_on() {
    let config = config(Convention::EmbeddedId, Policy::SkipAndReport);
    let (phase, action) = step(&config, Phase::AwaitingLine, line("{\"id\":\"42\""));
    assert_eq!(phase, Phase::AwaitingLine);
    assert_eq!(action, Action::Report(Fault::Record));
    assert_eq!(action.exit_code(), None);
    let (phase, action) = step(&config, phase, line("{\"id\":\"43\",\"name\":\"y\"}"));
    assert_eq!(phase, Phase::Executing);
    assert_eq!(
        action,
        Action::Send(Request {
            verb: Verb::Put,
            target: String::from("localhost:9200/idx/_doc/43"),
            header: "Content-Type: application/json",
            body: String::from("{\"name\":\"y\"}"),
        })
    );
}

#[test]
fn response_without_result_aborts() {
    let config = config(Convention::SplitEnvelope, Policy::Abort);
    assert_eq!(
        step(&config, Phase::Executing, response("{\"error\":\"x\"}")),
        (Phase::Aborted, Action::Abort(Fault::Response(ResponseError::NoIdentifier)))
    );
    assert_eq!(
        step(&config, Phase::Executing, response("{\"_id\":\"1\"}")),
        (Phase::Aborted, Action::Abort(Fault::Response(ResponseError::NoOutcome)))
    );
    assert_eq!(
        step(&config, Phase::Executing, response("oops")),
        (Phase::Aborted, Action::Abort(Fault::Response(ResponseError::NotJson)))
    );
    assert_eq!(
        step(&config, Phase::Executing, Event::Response(vec![0xff])),
        (Phase::Aborted, Action::Abort(Fault::Response(ResponseError::NotUtf8)))
    );
}

#[test]
fn response_without_result_is_reported_under_skip_and_report() {
    let config = config(Convention::SplitEnvelope, Policy::SkipAndReport);
    assert_eq!(
        step(&config, Phase::Executing, response("oops")),
        (Phase::AwaitingLine, Action::Report(Fault::Response(ResponseError::NotJson)))
    );
}

#[test]
fn failures_outside_abort_under_either_policy() {
    for policy in [Policy::Abort, Policy::SkipAndReport] {
        let config = config(Convention::SplitEnvelope, policy);
        assert_eq!(
            step(&config, Phase::AwaitingLine, Event::InputFailed),
            (Phase::Aborted, Action::Abort(Fault::Input))
        );
        assert_eq!(
            step(&config, Phase::Executing, Event::TransportFailed),
            (Phase::Aborted, Action::Abort(Fault::Transport))
        );
        assert_eq!(
            step(&config, Phase::Emitting, Event::OutputFailed),
            (Phase::Aborted, Action::Abort(Fault::Output))
        );
    }
}

#[test]
fn event_out_of_turn_aborts() {
    let config = config(Convention::SplitEnvelope, Policy::SkipAndReport);
    assert_eq!(
        step(&config, Phase::AwaitingLine, response("{}")),
        (Phase::Aborted, Action::Abort(Fault::OutOfTurn))
    );
    assert_eq!(
        step(&config, Phase::Executing, line("{}")),
        (Phase::Aborted, Action::Abort(Fault::OutOfTurn))
    );
    assert_eq!(
        step(&config, Phase::Executing, line("")),
        (Phase::Aborted, Action::Abort(Fault::OutOfTurn))
    );
    assert_eq!(
        step(&config, Phase::Emitting, Event::EndOfInput),
        (Phase::Aborted, Action::Abort(Fault::OutOfTurn))
    );
    assert_eq!(
        step(&config, Phase::AwaitingLine, Event::Written),
        (Phase::Aborted, Action::Abort(Fault::OutOfTurn))
    );
}

#[test]
fn nothing_follows_the_end_of_input() {
    let config = config(Convention::SplitEnvelope, Policy::Abort);
    for event in [line("{\"_source\":1}"), Event::EndOfInput, Event::Written, response("{}")] {
        assert_eq!(step(&config, Phase::Done, event), (Phase::Done, Action::Halt));
    }
}

#[test]
fn on_line_and_on_response_are_the_steps_of_their_phases() {
    let config = config(Convention::SplitEnvelope, Policy::Abort);
    let text = "{\"_source\":{\"k\":1}}";
    assert_eq!(on_line(&config, text), step(&config, Phase::AwaitingLine, line(text)));
    assert_eq!(
        on_line(&config, text),
        (
            Phase::Executing,
            Action::Send(Request {
                verb: Verb::Post,
                target: String::from("localhost:9200/idx/_doc/"),
                header: "Content-Type: application/json",
                body: String::from("{\"k\":1}"),
            })
        )
    );
    let body = "{\"_id\":\"42\",\"result\":\"updated\"}";
    assert_eq!(
        on_response(&config, body.as_bytes()),
        (Phase::Emitting, Action::Emit(String::from("\"42\": \"updated\"")))
    );
}

#[test]
fn two_records_give_two_requests_in_order() {
    let config = config(Convention::EmbeddedId, Policy::Abort);
    let events = [
        line("{\"id\":\"1\",\"v\":1}"),
        response("{\"_id\":\"1\",\"result\":\"created\"}"),
        Event::Written,
        line(""),
        line("{\"id\":\"2\",\"v\":2}"),
        response("{\"_id\":\"2\",\"result\":\"updated\"}"),
        Event::Written,
        Event::EndOfInput,
    ];
    let mut phase = Phase::AwaitingLine;
    let mut targets: Vec<String> = Vec::new();
    let mut output: Vec<String> = Vec::new();
    for event in events {
        let (next, action) = step(&config, phase, event);
        match action {
            Action::Send(request) => targets.push(request.target),
            Action::Emit(text) => output.push(text),
            _ => {}
        }
        phase = next;
    }
    assert_eq!(phase, Phase::Done);
    assert_eq!(targets, vec!["localhost:9200/idx/_doc/1", "localhost:9200/idx/_doc/2"]);
    assert_eq!(output, vec!["\"1\": \"created\"", "\"2\": \"updated\""]);
}
