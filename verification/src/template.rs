//! The chat templates and their application to a conversation.

use crate::context::{ContextView, Datum, DatumView, Record};
use crate::engine::{render, template_home, template_name, Sources};
use crate::error::{
    ApplyChatMLTemplateError, ApplyMistralInstructTemplateError, ApplyTAIDETemplateError,
    ApplyTemplateError,
};
use crate::message::{records, records_of, Message, MessageView};
use minijinja::Environment;
use vstd::prelude::*;

verus! {

/// The ChatML layout: every message between a start and an end marker, and,
/// on request, the opening of an assistant turn at the end.
pub const CHATML_JINJA_TEMPLATE: &'static str =
    "{% for message in messages %}{{'<|im_start|>' + message['role'] + '\n' + message['content'] + '<|im_end|>' + '\n'}}{% endfor %}{% if add_generation_prompt %}{{ '<|im_start|>assistant\n' }}{% endif %}";

pub const CHATML_JINJA_TEMPLATE_NAME: &'static str = "chatml";

/// The Mistral instruct layout: user turns in instruction brackets, assistant
/// turns closed by the end token, every other role left out.
pub const MISTRAL_INSTRUCT_TEMPLATE: &'static str =
    "{{ bos_token }}{% for message in messages %}{% if message['role'] == 'user' %}{{ '[INST] ' + message['content'] + ' [/INST]' }}{% elif message['role'] == 'assistant' %}{{ message['content'] + eos_token}}{% endif %}{% endfor %}";

pub const MISTRAL_INSTRUCT_TEMPLATE_NAME: &'static str = "mistral-instruct";

/// The TAIDE layout: a leading system message becomes a header in front of the
/// content of the message after it; the rest as in instruction brackets.
pub const TAIDE_JINJA_TEMPLATE: &'static str =
    "{% if messages[0]['role'] == 'system' %}{% set loop_messages = messages[1:] %}{% set system_message = '<<SYS>>\n' + messages[0]['content'] + '\n<</SYS>>\n\n' %}{% else %}{% set loop_messages = messages %}{% set system_message = '' %}{% endif %}{% for message in loop_messages %}{% if loop.index0 == 0 %}{% set content = system_message + message['content'] %}{% else %}{% set content = message['content'] %}{% endif %}{% if message['role'] == 'user' %}{{ bos_token + '[INST] ' + content + ' [/INST]'}}{% elif message['role'] == 'assistant' %}{{ ' '  + content + ' ' + eos_token }}{% endif %}{% endfor %}{% if add_generation_prompt %}{{ '<|im_start|>assistant\n' }}{% endif %}";

pub const TAIDE_JINJA_TEMPLATE_NAME: &'static str = "taide";

/// The token that opens a sequence in the bracket layouts.
pub const BOS_TOKEN: &'static str = "<s>";

/// The token that closes a sequence in the bracket layouts.
pub const EOS_TOKEN: &'static str = "</s>";

/// All available templates.
pub enum ChatTemplate {
    ChatML,
    MistralInstruct,
    TAIDE,
}

/// One ChatML turn: the role and the content between the two markers, each
/// followed by a newline.
pub open spec fn chatml_turn(message: MessageView) -> Seq<char> {
    "<|im_start|>"@ + message.role + "\n"@ + message.content + "<|im_end|>"@ + "\n"@
}

/// The ChatML turns of a conversation, one after the other in turn order.
pub open spec fn chatml_turns(conversation: Seq<MessageView>) -> Seq<char>
    decreases conversation.len(),
{
    if conversation.len() == 0 {
        Seq::empty()
    } else {
        chatml_turns(conversation.drop_last()) + chatml_turn(conversation.last())
    }
}

/// The ChatML prompt: every turn, then the opening of an assistant turn if the
/// generation prompt is asked for.
pub open spec fn chatml_text(conversation: Seq<MessageView>, add_generation_prompt: bool) -> Seq<
    char,
> {
    chatml_turns(conversation) + if add_generation_prompt {
        "<|im_start|>assistant\n"@
    } else {
        Seq::empty()
    }
}

/// One Mistral instruct turn: a user message in instruction brackets, an
/// assistant message followed by the end token, nothing for any other role.
pub open spec fn mistral_turn(message: MessageView) -> Seq<char> {
    if message.role == "user"@ {
        "[INST] "@ + message.content + " [/INST]"@
    } else if message.role == "assistant"@ {
        message.content + EOS_TOKEN@
    } else {
        Seq::empty()
    }
}

/// The Mistral instruct turns of a conversation, one after the other in turn order.
pub open spec fn mistral_turns(conversation: Seq<MessageView>) -> Seq<char>
    decreases conversation.len(),
{
    if conversation.len() == 0 {
        Seq::empty()
    } else {
        mistral_turns(conversation.drop_last()) + mistral_turn(conversation.last())
    }
}

/// The Mistral instruct prompt: the opening token, then every turn.
pub open spec fn mistral_text(conversation: Seq<MessageView>) -> Seq<char> {
    BOS_TOKEN@ + mistral_turns(conversation)
}

/// The header that the TAIDE layout makes of a system message's content.
pub open spec fn taide_header(content: Seq<char>) -> Seq<char> {
    "<<SYS>>\n"@ + content + "\n<</SYS>>\n\n"@
}

/// One TAIDE turn of the given role around the given content: a user turn
/// opens with the opening token and stands in instruction brackets, an
/// assistant turn stands between spaces before the end token, any other role
/// gives nothing.
pub open spec fn taide_turn(role: Seq<char>, content: Seq<char>) -> Seq<char> {
    if role == "user"@ {
        BOS_TOKEN@ + "[INST] "@ + content + " [/INST]"@
    } else if role == "assistant"@ {
        " "@ + content + " "@ + EOS_TOKEN@
    } else {
        Seq::empty()
    }
}

/// TAIDE turns that carry no header, one after the other in turn order.
pub open spec fn taide_plain_turns(conversation: Seq<MessageView>) -> Seq<char>
    decreases conversation.len(),
{
    if conversation.len() == 0 {
        Seq::empty()
    } else {
        taide_plain_turns(conversation.drop_last()) + taide_turn(
            conversation.last().role,
            conversation.last().content,
        )
    }
}

/// TAIDE turns of which the first has `header` in front of its content.
pub open spec fn taide_turns(conversation: Seq<MessageView>, header: Seq<char>) -> Seq<char> {
    if conversation.len() == 0 {
        Seq::empty()
    } else {
        taide_turn(conversation[0].role, header + conversation[0].content) + taide_plain_turns(
            conversation.subrange(1, conversation.len() as int),
        )
    }
}

/// The TAIDE prompt: a leading system message is taken out and its header put
/// in front of the content of the message after it; the messages that are
/// left are written as turns. An empty conversation gives the empty prompt.
pub open spec fn taide_text(conversation: Seq<MessageView>) -> Seq<char> {
    if conversation.len() > 0 && conversation[0].role == "system"@ {
        taide_turns(
            conversation.subrange(1, conversation.len() as int),
            taide_header(conversation[0].content),
        )
    } else {
        taide_turns(conversation, Seq::empty())
    }
}

impl ChatTemplate {
    /// The name under which the template is registered.
    pub open spec fn name(self) -> Seq<char> {
        match self {
            ChatTemplate::ChatML => CHATML_JINJA_TEMPLATE_NAME@,
            ChatTemplate::MistralInstruct => MISTRAL_INSTRUCT_TEMPLATE_NAME@,
            ChatTemplate::TAIDE => TAIDE_JINJA_TEMPLATE_NAME@,
        }
    }

    /// The template's source text.
    pub open spec fn source(self) -> Seq<char> {
        match self {
            ChatTemplate::ChatML => CHATML_JINJA_TEMPLATE@,
            ChatTemplate::MistralInstruct => MISTRAL_INSTRUCT_TEMPLATE@,
            ChatTemplate::TAIDE => TAIDE_JINJA_TEMPLATE@,
        }
    }

    /// The context the template is rendered against.
    ///
    /// Only ChatML is given the generation-prompt flag; the bracket layouts
    /// are given the two boundary tokens in its place.
    pub open spec fn context(
        self,
        conversation: Seq<MessageView>,
        add_generation_prompt: bool,
    ) -> ContextView {
        match self {
            ChatTemplate::ChatML => seq![
                ("messages"@, DatumView::Records(records_of(conversation))),
                ("add_generation_prompt"@, DatumView::Flag(add_generation_prompt)),
            ],
            ChatTemplate::MistralInstruct | ChatTemplate::TAIDE => seq![
                ("messages"@, DatumView::Records(records_of(conversation))),
                ("bos_token"@, DatumView::Text(BOS_TOKEN@)),
                ("eos_token"@, DatumView::Text(EOS_TOKEN@)),
            ],
        }
    }

    /// The prompt of the layout for a conversation.
    pub open spec fn text(self, conversation: Seq<MessageView>, add_generation_prompt: bool) -> Seq<
        char,
    > {
        match self {
            ChatTemplate::ChatML => chatml_text(conversation, add_generation_prompt),
            ChatTemplate::MistralInstruct => mistral_text(conversation),
            ChatTemplate::TAIDE => taide_text(conversation),
        }
    }
}

/// Whether `source` under `name` is one of the three templates above.
pub open spec fn shipped(name: Seq<char>, source: Seq<char>) -> bool {
    ||| name == ChatTemplate::ChatML.name() && source == ChatTemplate::ChatML.source()
    ||| name == ChatTemplate::MistralInstruct.name() && source
        == ChatTemplate::MistralInstruct.source()
    ||| name == ChatTemplate::TAIDE.name() && source == ChatTemplate::TAIDE.source()
}

/// The conversation that a context binds first, read back from its records:
/// of each record the first field's text as the role, the second's as the content.
pub open spec fn conversation_in(context: ContextView) -> Seq<MessageView> {
    if context.len() > 0 && context[0].1 is Records {
        context[0].1->Records_0.map_values(
            |record: Record| MessageView { role: record[0].1, content: record[1].1 },
        )
    } else {
        Seq::empty()
    }
}

/// The flag that a context binds second, `false` where it binds none there.
pub open spec fn flag_in(context: ContextView) -> bool {
    context.len() > 1 && context[1].1 is Flag && context[1].1->Flag_0
}

/// Whether asking for the template `name` of an environment that holds `home`,
/// against `context`, is what applying `template` to a conversation asks: the
/// name and the source are the template's, the context is the template's
/// context for the conversation and the flag it binds, and, for TAIDE, the
/// conversation has a message.
pub open spec fn asks(
    template: ChatTemplate,
    home: Sources,
    name: Seq<char>,
    context: ContextView,
) -> bool {
    &&& name == template.name()
    &&& home.contains_key(name)
    &&& home[name] == template.source()
    &&& context == template.context(conversation_in(context), flag_in(context))
    &&& template is TAIDE ==> conversation_in(context).len() > 0
}

/// Asking for a template under its own name, of an environment that holds
/// its source there, against its own context for a conversation, is what
/// applying the template asks; and the context gives back the conversation
/// and, for ChatML, the flag.
proof fn lemma_own_call_asks(
    template: ChatTemplate,
    conversation: Seq<MessageView>,
    add_generation_prompt: bool,
    home: Sources,
    name: Seq<char>,
)
    requires
        name == template.name(),
        home.contains_key(name),
        home[name] == template.source(),
        template is TAIDE ==> conversation.len() > 0,
    ensures
        asks(template, home, name, template.context(conversation, add_generation_prompt)),
        conversation_in(template.context(conversation, add_generation_prompt)) == conversation,
        template is ChatML ==> flag_in(template.context(conversation, add_generation_prompt))
            == add_generation_prompt,
{
    let context = template.context(conversation, add_generation_prompt);
    assert(context[0].1 == DatumView::Records(records_of(conversation)));
    assert(conversation_in(context) =~= conversation);
    assert(context =~= template.context(conversation_in(context), flag_in(context)));
}

/// Apply the ChatML template to messages, return the prompt.
fn apply_chatml_template(messages: &Vec<Message>, add_generation_prompt: bool) -> (res: Result<
    String,
    ApplyChatMLTemplateError,
>)
    ensures
        res matches Ok(text) && text@ == chatml_text(messages.deep_view(), add_generation_prompt),
{
    let mut env = Environment::new();
    match env.add_template(CHATML_JINJA_TEMPLATE_NAME, CHATML_JINJA_TEMPLATE) {
        Ok(()) => {},
        Err(e) => {
            return Err(ApplyChatMLTemplateError::AddTemplateError(e));
        },
    }
    let template = match env.get_template(CHATML_JINJA_TEMPLATE_NAME) {
        Ok(template) => template,
        Err(e) => {
            return Err(ApplyChatMLTemplateError::GetTemplateError(e));
        },
    };
    let context = vec![
        ("messages", Datum::Records(records(messages))),
        ("add_generation_prompt", Datum::Flag(add_generation_prompt)),
    ];
    proof {
        assert(context.deep_view() =~= ChatTemplate::ChatML.context(messages.deep_view(), add_generation_prompt));
        lemma_own_call_asks(
            ChatTemplate::ChatML,
            messages.deep_view(),
            add_generation_prompt,
            template_home(template),
            template_name(template),
        );
    }
    match render(&template, &context) {
        Ok(text) => Ok(text),
        Err(e) => Err(ApplyChatMLTemplateError::RenderTemplateError(e)),
    }
}

/// Apply the Mistral instruct template to messages, return the prompt.
fn apply_mistral_instruct_template(messages: &Vec<Message>) -> (res: Result<
    String,
    ApplyMistralInstructTemplateError,
>)
    ensures
        res matches Ok(text) && text@ == mistral_text(messages.deep_view()),
{
    let mut env = Environment::new();
    match env.add_template(MISTRAL_INSTRUCT_TEMPLATE_NAME, MISTRAL_INSTRUCT_TEMPLATE) {
        Ok(()) => {},
        Err(e) => {
            return Err(ApplyMistralInstructTemplateError::AddTemplateError(e));
        },
    }
    let template = match env.get_template(MISTRAL_INSTRUCT_TEMPLATE_NAME) {
        Ok(template) => template,
        Err(e) => {
            return Err(ApplyMistralInstructTemplateError::GetTemplateError(e));
        },
    };
    let context = vec![
        ("messages", Datum::Records(records(messages))),
        ("bos_token", Datum::Text(BOS_TOKEN)),
        ("eos_token", Datum::Text(EOS_TOKEN)),
    ];
    proof {
        assert(context.deep_view() =~= ChatTemplate::MistralInstruct.context(messages.deep_view(), false));
        lemma_own_call_asks(
            ChatTemplate::MistralInstruct,
            messages.deep_view(),
            false,
            template_home(template),
            template_name(template),
        );
    }
    match render(&template, &context) {
        Ok(text) => Ok(text),
        Err(e) => Err(ApplyMistralInstructTemplateError::RenderTemplateError(e)),
    }
}

/// Apply the TAIDE template to messages, return the prompt.
///
/// The template reads the first message before anything else, so a
/// conversation without one is answered here, with the empty prompt, and the
/// engine is asked only where there is a message.
fn apply_taide_template(messages: &Vec<Message>) -> (res: Result<String, ApplyTAIDETemplateError>)
    ensures
        res matches Ok(text) && text@ == taide_text(messages.deep_view()),
{
    if messages.len() == 0 {
        return Ok(String::new());
    }
    let mut env = Environment::new();
    match env.add_template(TAIDE_JINJA_TEMPLATE_NAME, TAIDE_JINJA_TEMPLATE) {
        Ok(()) => {},
        Err(e) => {
            return Err(ApplyTAIDETemplateError::AddTemplateError(e));
        },
    }
    let template = match env.get_template(TAIDE_JINJA_TEMPLATE_NAME) {
        Ok(template) => template,
        Err(e) => {
            return Err(ApplyTAIDETemplateError::GetTemplateError(e));
        },
    };
    let context = vec![
        ("messages", Datum::Records(records(messages))),
        ("bos_token", Datum::Text(BOS_TOKEN)),
        ("eos_token", Datum::Text(EOS_TOKEN)),
    ];
    proof {
        assert(context.deep_view() =~= ChatTemplate::TAIDE.context(messages.deep_view(), false));
        lemma_own_call_asks(
            ChatTemplate::TAIDE,
            messages.deep_view(),
            false,
            template_home(template),
            template_name(template),
        );
    }
    match render(&template, &context) {
        Ok(text) => Ok(text),
        Err(e) => Err(ApplyTAIDETemplateError::RenderTemplateError(e)),
    }
}

/// Apply chat template to messages, return the prompt.
///
/// # Arguments
/// * `template` - the template to render
/// * `messages` - a list of messages, each message contains `role` and `content`
/// * `add_generation_prompt` - if `true`, ChatML attaches `<|im_start|>assistant\n`
///   at the end of the prompt; the bracket layouts take no notice of it
///
/// Every conversation has a prompt in every layout, the empty one included:
/// the call succeeds and returns the text of the layout.
pub fn apply_template(
    template: ChatTemplate,
    messages: &Vec<Message>,
    add_generation_prompt: bool,
) -> (res: Result<String, ApplyTemplateError>)
    ensures
        res matches Ok(text) && text@ == template.text(messages.deep_view(), add_generation_prompt),
{
    match template {
        ChatTemplate::ChatML => match apply_chatml_template(messages, add_generation_prompt) {
            Ok(text) => Ok(text),
            Err(e) => Err(ApplyTemplateError::ApplyChatMLTemplateError(e)),
        },
        ChatTemplate::MistralInstruct => match apply_mistral_instruct_template(messages) {
            Ok(text) => Ok(text),
            Err(e) => Err(ApplyTemplateError::ApplyMistralInstructTemplateError(e)),
        },
        ChatTemplate::TAIDE => match apply_taide_template(messages) {
            Ok(text) => Ok(text),
            Err(e) => Err(ApplyTemplateError::ApplyTAIDETemplateError(e)),
        },
    }
}

} // verus!
