//! Initialization scripts on their way to the render process.

use crate::bootstrap;
use crate::bootstrap::{InitScriptModel, RendererInitScript, RendererMessage};
use crate::cef_calls;
use crate::cef_calls::{CallOf, CallSequence, ProcessId, SequenceState, Step, StepModel};
use crate::config;
use vstd::prelude::*;

verus! {

/// The script that gives every page a way to send messages, if it has none.
pub const CEF_IPC_FALLBACK_SHIM: &'static str = "
(() => {
  if (window.ipc && typeof window.ipc.postMessage === \"function\") {
    return;
  }

  const postMessage = (message) => {
    if (typeof window.cefQuery !== \"function\") {
      console.error(\"tauri-runtime-cef: window.cefQuery is not available for IPC fallback\");
      return;
    }

    let request = \"\";
    if (typeof message === \"string\") {
      request = message;
    } else {
      try {
        request = JSON.stringify(message);
      } catch (_error) {
        request = String(message);
      }
    }

    window.cefQuery({
      request,
      onFailure: (_code, error) => {
        if (error) {
          console.error(\"tauri-runtime-cef: IPC query failed:\", error);
        }
      },
    });
  };

  Object.defineProperty(window, \"ipc\", {
    configurable: true,
    value: Object.freeze({ postMessage }),
  });
})();
";

/// The scripts that a webview runs in new documents: the way to send messages comes
/// first, in main frames, and then what the application asks for.
pub open spec fn all_scripts(scripts: Seq<InitScriptModel>) -> Seq<InitScriptModel> {
    seq![InitScriptModel { script: CEF_IPC_FALLBACK_SHIM@, for_main_frame_only: true }] + scripts
}

/// The scripts as characters.
pub open spec fn models(scripts: Seq<RendererInitScript>) -> Seq<InitScriptModel> {
    scripts.map_values(|script: RendererInitScript| script@)
}

/// The scripts that a webview runs in new documents.
pub fn initialization_scripts(scripts: &Vec<RendererInitScript>) -> (all: Vec<RendererInitScript>)
    ensures
        models(all@) == all_scripts(models(scripts@)),
{
    let mut all: Vec<RendererInitScript> = Vec::new();
    all.push(RendererInitScript { script: CEF_IPC_FALLBACK_SHIM.to_string(), for_main_frame_only: true });
    let mut index: usize = 0;
    assert(models(all@) =~= all_scripts(models(scripts@).take(0)));
    while index < scripts.len()
        invariant
            index <= scripts@.len(),
            models(all@) == all_scripts(models(scripts@).take(index as int)),
        decreases scripts@.len() - index,
    {
        let ghost before = all@;
        all.push(
            RendererInitScript {
                script: scripts[index].script.clone(),
                for_main_frame_only: scripts[index].for_main_frame_only,
            },
        );
        assert(models(all@) =~= models(before).push(models(scripts@)[index as int]));
        assert(models(all@) =~= all_scripts(models(scripts@).take(index + 1)));
        index = index + 1;
    }
    assert(models(scripts@).take(index as int) =~= models(scripts@));
    all
}

/// The calls that find the frame which sends messages.
pub open spec fn lookup_steps() -> Seq<StepModel> {
    seq![cef_calls::required(CallOf::MainFrame)]
}

/// The calls that send a message which clears the scripts of the browser.
pub open spec fn clear_steps() -> Seq<StepModel> {
    seq![
        cef_calls::required(CallOf::CreateProcessMessage(bootstrap::clear_message())),
        cef_calls::always(CallOf::SendProcessMessage(ProcessId::Renderer)),
    ]
}

/// The calls that send a message which adds a script to the browser.
pub open spec fn add_steps(script: InitScriptModel) -> Seq<StepModel> {
    seq![
        cef_calls::required(CallOf::CreateProcessMessage(bootstrap::add_message())),
        cef_calls::required(CallOf::ArgumentList),
        cef_calls::required(CallOf::SetArgumentCount(2)),
        cef_calls::required(CallOf::SetStringArgument(0, script.script)),
        cef_calls::always(
            CallOf::SetBoolArgument(1, config::flag_value(script.for_main_frame_only)),
        ),
        cef_calls::always(CallOf::SendProcessMessage(ProcessId::Renderer)),
    ]
}

/// The messages that bring scripts to the render process: one that clears what is
/// there, and one for each script, in order.
pub open spec fn transfer_messages(scripts: Seq<InitScriptModel>) -> Seq<SequenceState> {
    seq![SequenceState::of(clear_steps())] + scripts.map_values(
        |script: InitScriptModel| SequenceState::of(add_steps(script)),
    )
}

/// How scripts are brought to the render process.
#[derive(Debug)]
pub struct ScriptTransfer {
    /// Finds the frame that sends messages. Without it nothing is sent.
    pub lookup: CallSequence,
    /// The messages. One that cannot be sent does not keep the next from being sent.
    pub messages: Vec<CallSequence>,
}

fn clear_calls() -> (calls: CallSequence)
    ensures
        calls@ == SequenceState::of(clear_steps()),
{
    let steps: Vec<Step> = vec![
        Step::required(
            CallOf::CreateProcessMessage("__TAURI_CLEAR_INIT_SCRIPTS__".to_string()),
        ),
        Step::always(CallOf::SendProcessMessage(ProcessId::Renderer)),
    ];
    assert(steps@.map_values(|step: Step| step@) =~= clear_steps());
    CallSequence::of(steps)
}

fn add_calls(script: &RendererInitScript) -> (calls: CallSequence)
    ensures
        calls@ == SequenceState::of(add_steps(script@)),
{
    let steps: Vec<Step> = vec![
        Step::required(CallOf::CreateProcessMessage("__TAURI_ADD_INIT_SCRIPT__".to_string())),
        Step::required(CallOf::ArgumentList),
        Step::required(CallOf::SetArgumentCount(2)),
        Step::required(CallOf::SetStringArgument(0, script.script.clone())),
        Step::always(CallOf::SetBoolArgument(1, config::flag(script.for_main_frame_only))),
        Step::always(CallOf::SendProcessMessage(ProcessId::Renderer)),
    ];
    assert(steps@.map_values(|step: Step| step@) =~= add_steps(script@));
    CallSequence::of(steps)
}

/// Brings scripts to the render process of a browser.
pub fn send_init_scripts_to_renderer(scripts: &Vec<RendererInitScript>) -> (transfer:
    ScriptTransfer)
    ensures
        transfer.lookup@ == SequenceState::of(lookup_steps()),
        transfer.messages@.map_values(|calls: CallSequence| calls@) == transfer_messages(
            models(scripts@),
        ),
{
    let steps: Vec<Step> = vec![Step::required(CallOf::MainFrame)];
    assert(steps@.map_values(|step: Step| step@) =~= lookup_steps());
    let lookup = CallSequence::of(steps);
    let mut messages: Vec<CallSequence> = Vec::new();
    messages.push(clear_calls());
    let mut index: usize = 0;
    assert(messages@.map_values(|calls: CallSequence| calls@) =~= transfer_messages(
        models(scripts@).take(0),
    ));
    while index < scripts.len()
        invariant
            index <= scripts@.len(),
            messages@.map_values(|calls: CallSequence| calls@) == transfer_messages(
                models(scripts@).take(index as int),
            ),
        decreases scripts@.len() - index,
    {
        let ghost before = messages@;
        messages.push(add_calls(&scripts[index]));
        assert(messages@.map_values(|calls: CallSequence| calls@) =~= before.map_values(
            |calls: CallSequence| calls@,
        ).push(SequenceState::of(add_steps(models(scripts@)[index as int]))));
        assert(messages@.map_values(|calls: CallSequence| calls@) =~= transfer_messages(
            models(scripts@).take(index + 1),
        ));
        index = index + 1;
    }
    assert(models(scripts@).take(index as int) =~= models(scripts@));
    ScriptTransfer { lookup, messages }
}

/// The message that a render process gets when a script is added.
pub open spec fn carries(message: RendererMessage, script: InitScriptModel) -> bool {
    &&& message.name@ == bootstrap::add_message()
    &&& message.arguments matches Some(arguments) && {
        &&& arguments.script@ == script.script
        &&& arguments.for_main_frame_only == config::flag_value(script.for_main_frame_only)
    }
}

/// The scripts of the browsers of a render process after messages of one browser.
pub open spec fn scripts_after_all(
    scripts: Map<i32, Seq<InitScriptModel>>,
    browser: i32,
    messages: Seq<RendererMessage>,
) -> Map<i32, Seq<InitScriptModel>>
    decreases messages.len(),
{
    if messages.len() == 0 {
        scripts
    } else {
        bootstrap::scripts_after(
            scripts_after_all(scripts, browser, messages.drop_last()),
            Some(browser),
            ProcessId::Browser,
            Some(messages.last()),
        )
    }
}

/// The scripts that are not empty, in order.
pub open spec fn non_empty(scripts: Seq<InitScriptModel>) -> Seq<InitScriptModel>
    decreases scripts.len(),
{
    if scripts.len() == 0 {
        Seq::empty()
    } else if scripts.last().script.len() == 0 {
        non_empty(scripts.drop_last())
    } else {
        non_empty(scripts.drop_last()).push(scripts.last())
    }
}

/// When the messages of a transfer have arrived, the browser has the scripts of the
/// transfer, in their order and no others, whatever it had before. Empty scripts are
/// left out.
pub proof fn lemma_scripts_arrive(
    scripts: Map<i32, Seq<InitScriptModel>>,
    browser: i32,
    clear: RendererMessage,
    adds: Seq<RendererMessage>,
    sent: Seq<InitScriptModel>,
)
    requires
        clear.name@ == bootstrap::clear_message(),
        adds.len() == sent.len(),
        forall|i: int| 0 <= i < adds.len() ==> carries(#[trigger] adds[i], sent[i]),
    ensures
        bootstrap::scripts_of(scripts_after_all(scripts, browser, seq![clear] + adds), browser)
            == non_empty(sent),
    decreases adds.len(),
{
    reveal_strlit("__TAURI_ADD_INIT_SCRIPT__");
    reveal_strlit("__TAURI_CLEAR_INIT_SCRIPTS__");
    assert(bootstrap::add_message().len() != bootstrap::clear_message().len());
    let messages = seq![clear] + adds;
    if adds.len() == 0 {
        assert(messages.drop_last() =~= Seq::empty());
        assert(messages.last() == clear);
        assert(scripts_after_all(scripts, browser, messages.drop_last()) == scripts);
    } else {
        assert(messages.drop_last() =~= seq![clear] + adds.drop_last());
        assert forall|i: int| 0 <= i < adds.drop_last().len() implies carries(
            #[trigger] adds.drop_last()[i],
            sent.drop_last()[i],
        ) by {
            assert(carries(adds[i], sent[i]));
        }
        lemma_scripts_arrive(scripts, browser, clear, adds.drop_last(), sent.drop_last());
        assert(carries(adds[adds.len() - 1], sent[sent.len() - 1]));
        let before = scripts_after_all(scripts, browser, messages.drop_last());
        let message = Some(messages.last());
        assert(bootstrap::name_of(message) == bootstrap::add_message());
        if sent.last().script.len() > 0 {
            assert(bootstrap::added_script(message) == Some(sent.last()));
        } else {
            assert(bootstrap::added_script(message) is None);
        }
    }
}

/// Every page first gets a way to send messages, in its main frame only, and then the scripts
/// of the application, unchanged and in their order.
pub proof fn lemma_shim_comes_first(
    scripts: &Vec<RendererInitScript>,
    all: Vec<RendererInitScript>,
    i: int,
)
    requires
        call_ensures(initialization_scripts, (scripts,), all),
    ensures
        all@.len() == scripts@.len() + 1,
        all@[0].script@ == CEF_IPC_FALLBACK_SHIM@,
        all@[0].for_main_frame_only,
        0 <= i < scripts@.len() ==> {
            &&& all@[i + 1].script@ == scripts@[i].script@
            &&& all@[i + 1].for_main_frame_only == scripts@[i].for_main_frame_only
        },
{
    assert(models(all@).len() == all@.len());
    assert(models(all@) == all_scripts(models(scripts@)));
    assert(models(all@).len() == 1 + scripts@.len());
    assert(models(all@)[0] == all@[0]@);
    if 0 <= i < scripts@.len() {
        assert(models(all@)[i + 1] == all@[i + 1]@);
        assert(models(scripts@)[i] == scripts@[i]@);
        assert(all_scripts(models(scripts@))[i + 1] == models(scripts@)[i]);
    }
}

/// Scripts go to the render process in messages of their own: the first message clears what
/// is there, and each of the others carries one script, with its text and whether it is for
/// main frames only, in order.
pub proof fn lemma_each_script_has_its_message(
    scripts: &Vec<RendererInitScript>,
    transfer: ScriptTransfer,
    i: int,
)
    requires
        call_ensures(send_init_scripts_to_renderer, (scripts,), transfer),
    ensures
        transfer.messages@.len() == scripts@.len() + 1,
        transfer.lookup@.outcome is None,
        transfer.lookup@.remaining == seq![
            StepModel { call: CallOf::MainFrame, on_failure: cef_calls::OnFailure::Stop(false) },
        ],
        transfer.messages@[0]@.outcome is None,
        transfer.messages@[0]@.remaining == seq![
            StepModel {
                call: CallOf::CreateProcessMessage("__TAURI_CLEAR_INIT_SCRIPTS__"@),
                on_failure: cef_calls::OnFailure::Stop(false),
            },
            StepModel {
                call: CallOf::SendProcessMessage(ProcessId::Renderer),
                on_failure: cef_calls::OnFailure::Continue,
            },
        ],
        0 <= i < scripts@.len() ==> {
            let steps = transfer.messages@[i + 1]@.remaining;
            &&& transfer.messages@[i + 1]@.outcome is None
            &&& steps.len() == 6
            &&& steps[0].call == CallOf::CreateProcessMessage("__TAURI_ADD_INIT_SCRIPT__"@)
            &&& steps[1].call == CallOf::<Seq<char>>::ArgumentList
            &&& steps[2].call == CallOf::<Seq<char>>::SetArgumentCount(2)
            &&& steps[3].call == CallOf::SetStringArgument(0, scripts@[i].script@)
            &&& scripts@[i].for_main_frame_only ==> steps[4].call
                == CallOf::<Seq<char>>::SetBoolArgument(1, 1)
            &&& !scripts@[i].for_main_frame_only ==> steps[4].call
                == CallOf::<Seq<char>>::SetBoolArgument(1, 0)
            &&& steps[5].call == CallOf::<Seq<char>>::SendProcessMessage(ProcessId::Renderer)
            &&& forall|j: int|
                0 <= j < 4 ==> (#[trigger] steps[j]).on_failure == cef_calls::OnFailure::Stop(false)
            &&& steps[4].on_failure == cef_calls::OnFailure::Continue
            &&& steps[5].on_failure == cef_calls::OnFailure::Continue
        },
{
    let sent = transfer.messages@.map_values(|calls: CallSequence| calls@);
    assert(sent.len() == transfer.messages@.len());
    assert(sent[0] == transfer.messages@[0]@);
    if 0 <= i < scripts@.len() {
        assert(sent[i + 1] == transfer.messages@[i + 1]@);
        assert(models(scripts@)[i] == scripts@[i]@);
        assert(sent[i + 1] == SequenceState::of(add_steps(models(scripts@)[i])));
    }
}

} // verus!
