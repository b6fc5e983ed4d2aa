//! The request context of a webview, and its preferences.

use crate::cef_calls;
use crate::cef_calls::{CallOf, CallSequence, SequenceState, Step, StepModel};
use crate::runtime::urls;
use crate::runtime::web::{ParsedUrl, UrlModel};
use vstd::prelude::*;

verus! {

/// The preference that a user agent is set by.
pub open spec fn user_agent_preference() -> Seq<char> {
    "general.useragent.override"@
}

/// The calls that set a preference to a text. Each has to succeed.
pub open spec fn string_preference_steps(name: Seq<char>, value: Seq<char>) -> Seq<StepModel> {
    seq![
        cef_calls::required(CallOf::CanSetPreference(name)),
        cef_calls::required(CallOf::CreateValue),
        cef_calls::required(CallOf::SetValueString(value)),
        cef_calls::required(CallOf::SetPreference(name)),
    ]
}

/// Sets a preference to a text.
pub fn set_string_preference(name: &str, value: &str) -> (calls: CallSequence)
    ensures
        calls@ == SequenceState::of(string_preference_steps(name@, value@)),
{
    let steps: Vec<Step> = vec![
        Step::required(CallOf::CanSetPreference(name.to_string())),
        Step::required(CallOf::CreateValue),
        Step::required(CallOf::SetValueString(value.to_string())),
        Step::required(CallOf::SetPreference(name.to_string())),
    ];
    assert(steps@.map_values(|step: Step| step@) =~= string_preference_steps(name@, value@));
    CallSequence::of(steps)
}

/// An entry of a dictionary.
pub open spec fn entry(key: Seq<char>, value: Seq<char>) -> StepModel {
    cef_calls::always(CallOf::SetDictionaryString { key, value })
}

/// The calls that send all traffic, that to the local host too, to a proxy server.
pub open spec fn proxy_steps(server: Seq<char>) -> Seq<StepModel> {
    seq![
        cef_calls::required(CallOf::CreateDictionary),
        entry("mode"@, "fixed_servers"@),
        entry("server"@, server),
        entry("bypass_list"@, "<-loopback>"@),
        cef_calls::required(CallOf::CreateValue),
        cef_calls::required(CallOf::SetValueDictionary),
        cef_calls::required(CallOf::CanSetPreference("proxy"@)),
        cef_calls::required(CallOf::SetPreference("proxy"@)),
    ]
}

/// The calls for a proxy URL: none, without success, if it names no host.
pub open spec fn proxy_calls(proxy_url: UrlModel) -> SequenceState {
    match urls::proxy_server(proxy_url) {
        Some(server) => SequenceState::of(proxy_steps(server)),
        None => SequenceState::ended(false),
    }
}

fn dictionary_entry(key: &str, value: &str) -> (step: Step)
    ensures
        step@ == entry(key@, value@),
{
    Step::always(CallOf::SetDictionaryString { key: key.to_string(), value: value.to_string() })
}

/// Sends all traffic to the server that a proxy URL names.
pub fn apply_proxy_preference(proxy_url: &ParsedUrl) -> (calls: CallSequence)
    ensures
        calls@ == proxy_calls(proxy_url@),
{
    let server = match urls::proxy_server_of(proxy_url) {
        Some(server) => server,
        None => {
            return CallSequence::ended(false);
        },
    };
    let steps: Vec<Step> = vec![
        Step::required(CallOf::CreateDictionary),
        dictionary_entry("mode", "fixed_servers"),
        dictionary_entry("server", server.as_str()),
        dictionary_entry("bypass_list", "<-loopback>"),
        Step::required(CallOf::CreateValue),
        Step::required(CallOf::SetValueDictionary),
        Step::required(CallOf::CanSetPreference("proxy".to_string())),
        Step::required(CallOf::SetPreference("proxy".to_string())),
    ];
    assert(steps@.map_values(|step: Step| step@) =~= proxy_steps(server@));
    CallSequence::of(steps)
}

/// What a webview wants of its request context.
#[derive(Debug)]
pub struct RequestContextAttributes {
    pub incognito: bool,
    pub user_agent: Option<String>,
    pub proxy_url: Option<ParsedUrl>,
}

/// A webview needs a request context of its own.
pub open spec fn needs_context(attributes: RequestContextAttributes) -> bool {
    attributes.incognito || attributes.user_agent is Some || attributes.proxy_url is Some
}

/// The preferences of a request context, each set by a sequence of its own.
pub open spec fn context_preferences(attributes: RequestContextAttributes) -> Seq<SequenceState> {
    let first = match attributes.user_agent {
        Some(user_agent) => seq![
            SequenceState::of(string_preference_steps(user_agent_preference(), user_agent@)),
        ],
        None => Seq::empty(),
    };
    match attributes.proxy_url {
        Some(proxy_url) => first.push(proxy_calls(proxy_url@)),
        None => first,
    }
}

/// Whether a webview gets a request context of its own, and the preferences that are
/// set on it. A preference that cannot be set does not keep the next from being set.
pub fn create_request_context_for_webview(attributes: &RequestContextAttributes) -> (preferences:
    Option<Vec<CallSequence>>)
    ensures
        preferences is Some <==> needs_context(*attributes),
        preferences matches Some(preferences) ==> preferences@.map_values(
            |calls: CallSequence| calls@,
        ) == context_preferences(*attributes),
{
    if !(attributes.incognito || attributes.user_agent.is_some()
        || attributes.proxy_url.is_some()) {
        return None;
    }
    let mut preferences: Vec<CallSequence> = Vec::new();
    if let Some(user_agent) = &attributes.user_agent {
        preferences.push(
            set_string_preference("general.useragent.override", user_agent.as_str()),
        );
    }
    if let Some(proxy_url) = &attributes.proxy_url {
        preferences.push(apply_proxy_preference(proxy_url));
    }
    assert(preferences@.map_values(|calls: CallSequence| calls@) =~= context_preferences(
        *attributes,
    ));
    Some(preferences)
}

/// A preference is set only if it can be: CEF is not asked to set it otherwise.
pub proof fn lemma_preference_is_asked_for_first(
    name: Seq<char>,
    value: Seq<char>,
    answers: Seq<i32>,
)
    requires
        answers.len() >= 4,
        answers[0] == 0,
    ensures
        cef_calls::run(string_preference_steps(name, value), answers) == (
            seq![CallOf::<Seq<char>>::CanSetPreference(name)],
            false,
        ),
{
}

/// A webview has a request context of its own exactly if it is incognito, has a user agent or
/// has a proxy. The user agent is set first, and then the proxy, each if there is one.
pub proof fn lemma_contexts_have_what_was_asked_for(
    attributes: &RequestContextAttributes,
    preferences: Option<Vec<CallSequence>>,
)
    requires
        call_ensures(create_request_context_for_webview, (attributes,), preferences),
    ensures
        preferences is Some <==> attributes.incognito || attributes.user_agent is Some
            || attributes.proxy_url is Some,
        preferences matches Some(preferences) ==> {
            let agents: int = if attributes.user_agent is Some {
                1
            } else {
                0
            };
            let proxies: int = if attributes.proxy_url is Some {
                1
            } else {
                0
            };
            &&& preferences@.len() == agents + proxies
            &&& attributes.user_agent matches Some(agent) ==> preferences@[0]@.remaining == seq![
                StepModel {
                    call: CallOf::CanSetPreference("general.useragent.override"@),
                    on_failure: cef_calls::OnFailure::Stop(false),
                },
                StepModel {
                    call: CallOf::CreateValue,
                    on_failure: cef_calls::OnFailure::Stop(false),
                },
                StepModel {
                    call: CallOf::SetValueString(agent@),
                    on_failure: cef_calls::OnFailure::Stop(false),
                },
                StepModel {
                    call: CallOf::SetPreference("general.useragent.override"@),
                    on_failure: cef_calls::OnFailure::Stop(false),
                },
            ]
            &&& attributes.proxy_url is Some && attributes.proxy_url->Some_0.host is None
                ==> preferences@[agents]@.remaining.len() == 0 && preferences@[agents]@.outcome
                == Some(false)
            &&& attributes.proxy_url is Some && attributes.proxy_url->Some_0.host is Some ==> {
                let proxy = attributes.proxy_url->Some_0;
                let steps = preferences@[agents]@.remaining;
                &&& steps.len() == 8
                &&& steps[0].call == CallOf::<Seq<char>>::CreateDictionary
                &&& steps[1].call == (CallOf::SetDictionaryString {
                    key: "mode"@,
                    value: "fixed_servers"@,
                })
                &&& steps[2].call == (CallOf::SetDictionaryString {
                    key: "server"@,
                    value: urls::proxy_server(proxy@)->Some_0,
                })
                &&& steps[3].call == (CallOf::SetDictionaryString {
                    key: "bypass_list"@,
                    value: "<-loopback>"@,
                })
                &&& steps[4].call == CallOf::<Seq<char>>::CreateValue
                &&& steps[5].call == CallOf::<Seq<char>>::SetValueDictionary
                &&& steps[6].call == CallOf::CanSetPreference("proxy"@)
                &&& steps[7].call == CallOf::SetPreference("proxy"@)
            }
        },
{
    if let Some(preferences) = preferences {
        let set = preferences@.map_values(|calls: CallSequence| calls@);
        assert(set.len() == preferences@.len());
        if set.len() > 0 {
            assert(set[0] == preferences@[0]@);
        }
        if set.len() > 1 {
            assert(set[1] == preferences@[1]@);
        }
    }
}

/// A preference is set only if it can be, to the text that it is given, under its name. Traffic
/// goes to the proxy server of the URL, that to the local host too, and nothing is done without
/// a server.
pub proof fn lemma_preferences_are_set(
    name: &str,
    value: &str,
    set: CallSequence,
    url: &ParsedUrl,
    server: Option<String>,
    proxied: CallSequence,
)
    requires
        call_ensures(set_string_preference, (name, value), set),
        call_ensures(urls::proxy_server_of, (url,), server),
        call_ensures(apply_proxy_preference, (url,), proxied),
    ensures
        set@.remaining.map_values(|step: StepModel| step.call) == seq![
            CallOf::CanSetPreference(name@),
            CallOf::CreateValue,
            CallOf::SetValueString(value@),
            CallOf::SetPreference(name@),
        ],
        server is None ==> proxied@.remaining.len() == 0 && proxied@.outcome == Some(false),
        server matches Some(server) ==> {
            let steps = proxied@.remaining;
            &&& steps.len() == 8
            &&& steps[1].call == (CallOf::SetDictionaryString {
                key: "mode"@,
                value: "fixed_servers"@,
            })
            &&& steps[2].call == (CallOf::SetDictionaryString { key: "server"@, value: server@ })
            &&& steps[3].call == (CallOf::SetDictionaryString {
                key: "bypass_list"@,
                value: "<-loopback>"@,
            })
            &&& steps[6].call == CallOf::CanSetPreference("proxy"@)
            &&& steps[7].call == CallOf::SetPreference("proxy"@)
        },
{
    assert(set@.remaining.map_values(|step: StepModel| step.call) =~= seq![
        CallOf::CanSetPreference(name@),
        CallOf::CreateValue,
        CallOf::SetValueString(value@),
        CallOf::SetPreference(name@),
    ]);
}

} // verus!
