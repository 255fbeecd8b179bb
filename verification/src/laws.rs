//! What holds of the three layouts, proved from their definitions.

use crate::message::{said, MessageView};
use crate::template::{
    chatml_text, chatml_turn, chatml_turns, mistral_text, mistral_turn, mistral_turns,
    taide_header, taide_plain_turns, taide_text, taide_turn, taide_turns, ChatTemplate,
    BOS_TOKEN, EOS_TOKEN,
};
use vstd::prelude::*;

verus! {

/// The ChatML turns of a conversation with one more message are the turns of
/// the conversation, then the turn of that message.
pub proof fn lemma_chatml_turns_push(conversation: Seq<MessageView>, message: MessageView)
    ensures
        chatml_turns(conversation.push(message)) == chatml_turns(conversation) + chatml_turn(
            message,
        ),
{
    assert(conversation.push(message).drop_last() =~= conversation);
}

/// The Mistral instruct turns of a conversation with one more message are the
/// turns of the conversation, then the turn of that message.
pub proof fn lemma_mistral_turns_push(conversation: Seq<MessageView>, message: MessageView)
    ensures
        mistral_turns(conversation.push(message)) == mistral_turns(conversation) + mistral_turn(
            message,
        ),
{
    assert(conversation.push(message).drop_last() =~= conversation);
}

/// The Mistral instruct turns of two conversations one after the other are
/// the turns of the first, then the turns of the second.
pub proof fn lemma_mistral_turns_concat(first: Seq<MessageView>, second: Seq<MessageView>)
    ensures
        mistral_turns(first + second) == mistral_turns(first) + mistral_turns(second),
    decreases second.len(),
{
    if second.len() == 0 {
        assert(first + second =~= first);
        assert(mistral_turns(first) + Seq::<char>::empty() =~= mistral_turns(first));
    } else {
        lemma_mistral_turns_concat(first, second.drop_last());
        assert((first + second).drop_last() =~= first + second.drop_last());
        assert((first + second).last() == second.last());
        assert(mistral_turns(first) + (mistral_turns(second.drop_last()) + mistral_turn(
            second.last(),
        )) =~= (mistral_turns(first) + mistral_turns(second.drop_last())) + mistral_turn(
            second.last(),
        ));
    }
}

/// The header-free TAIDE turns of a conversation with one more message are
/// the turns of the conversation, then the turn of that message.
pub proof fn lemma_taide_plain_turns_push(conversation: Seq<MessageView>, message: MessageView)
    ensures
        taide_plain_turns(conversation.push(message)) == taide_plain_turns(conversation)
            + taide_turn(message.role, message.content),
{
    assert(conversation.push(message).drop_last() =~= conversation);
}

/// The header-free TAIDE turns of two conversations one after the other are
/// the turns of the first, then the turns of the second.
pub proof fn lemma_taide_plain_turns_concat(first: Seq<MessageView>, second: Seq<MessageView>)
    ensures
        taide_plain_turns(first + second) == taide_plain_turns(first) + taide_plain_turns(second),
    decreases second.len(),
{
    if second.len() == 0 {
        assert(first + second =~= first);
        assert(taide_plain_turns(first) + Seq::<char>::empty() =~= taide_plain_turns(first));
    } else {
        lemma_taide_plain_turns_concat(first, second.drop_last());
        assert((first + second).drop_last() =~= first + second.drop_last());
        assert((first + second).last() == second.last());
        let turn = taide_turn(second.last().role, second.last().content);
        assert(taide_plain_turns(first) + (taide_plain_turns(second.drop_last()) + turn)
            =~= (taide_plain_turns(first) + taide_plain_turns(second.drop_last())) + turn);
    }
}

/// A layout's prompt is a function of the conversation and the flag: equal
/// conversations, message for message, have the same prompt under the same flag.
pub proof fn lemma_text_is_deterministic(
    template: ChatTemplate,
    first: Seq<MessageView>,
    second: Seq<MessageView>,
    add_generation_prompt: bool,
)
    requires
        first.len() == second.len(),
        forall|i: int| 0 <= i < first.len() ==> first[i] == second[i],
    ensures
        template.text(first, add_generation_prompt) == template.text(
            second,
            add_generation_prompt,
        ),
{
    assert(first =~= second);
}

/// The ChatML prompt of the empty conversation is empty without the
/// generation prompt, and exactly the opening of an assistant turn with it.
pub proof fn lemma_chatml_of_no_messages()
    ensures
        chatml_text(Seq::empty(), false) == Seq::<char>::empty(),
        chatml_text(Seq::empty(), true) == "<|im_start|>assistant\n"@,
{
    assert(chatml_text(Seq::empty(), false) =~= Seq::<char>::empty());
    assert(chatml_text(Seq::empty(), true) =~= "<|im_start|>assistant\n"@);
}

/// The bracket layouts take no notice of the generation-prompt flag: a
/// conversation has the same prompt whether it is set or not.
pub proof fn lemma_bracket_layouts_ignore_flag(template: ChatTemplate, conversation: Seq<MessageView>)
    requires
        template != ChatTemplate::ChatML,
    ensures
        template.text(conversation, true) == template.text(conversation, false),
{
}

/// In the Mistral instruct layout a message whose role is neither `user` nor
/// `assistant` contributes no text: the prompt is that of the conversation
/// without the message.
pub proof fn lemma_mistral_leaves_out_other_roles(conversation: Seq<MessageView>, i: int)
    requires
        0 <= i < conversation.len(),
        conversation[i].role != "user"@,
        conversation[i].role != "assistant"@,
    ensures
        mistral_turn(conversation[i]) == Seq::<char>::empty(),
        mistral_text(conversation) == mistral_text(conversation.remove(i)),
{
    let before = conversation.subrange(0, i);
    let after = conversation.subrange(i + 1, conversation.len() as int);
    assert(conversation =~= before.push(conversation[i]) + after);
    assert(conversation.remove(i) =~= before + after);
    lemma_mistral_turns_concat(before.push(conversation[i]), after);
    lemma_mistral_turns_concat(before, after);
    lemma_mistral_turns_push(before, conversation[i]);
    assert(mistral_turns(before) + Seq::<char>::empty() =~= mistral_turns(before));
}

/// TAIDE turns without a header are the header-free turns.
pub proof fn lemma_taide_turns_without_header(conversation: Seq<MessageView>)
    ensures
        taide_turns(conversation, Seq::empty()) == taide_plain_turns(conversation),
{
    if conversation.len() > 0 {
        let first = conversation.subrange(0, 1);
        let rest = conversation.subrange(1, conversation.len() as int);
        assert(conversation =~= first + rest);
        lemma_taide_plain_turns_concat(first, rest);
        assert(first =~= Seq::<MessageView>::empty().push(conversation[0]));
        lemma_taide_plain_turns_push(Seq::empty(), conversation[0]);
        assert(Seq::<char>::empty() + conversation[0].content =~= conversation[0].content);
        assert(Seq::<char>::empty() + taide_turn(conversation[0].role, conversation[0].content)
            =~= taide_turn(conversation[0].role, conversation[0].content));
    }
}

/// In the TAIDE layout the header made of a leading system message stands
/// once, directly in front of the content of the message after it; every
/// later message is written without a header.
pub proof fn lemma_taide_header_stands_once(conversation: Seq<MessageView>)
    requires
        conversation.len() >= 2,
        conversation[0].role == "system"@,
    ensures
        taide_text(conversation) == taide_turn(
            conversation[1].role,
            taide_header(conversation[0].content) + conversation[1].content,
        ) + taide_plain_turns(conversation.subrange(2, conversation.len() as int)),
{
    let rest = conversation.subrange(1, conversation.len() as int);
    assert(rest.subrange(1, rest.len() as int) =~= conversation.subrange(
        2,
        conversation.len() as int,
    ));
}

/// In the TAIDE layout a conversation that does not open with a system
/// message has no header anywhere: its prompt is its header-free turns. The
/// empty conversation has the empty prompt; so has a lone system message.
pub proof fn lemma_taide_without_leading_system(conversation: Seq<MessageView>)
    ensures
        conversation.len() == 0 ==> taide_text(conversation) == Seq::<char>::empty(),
        conversation.len() > 0 && conversation[0].role != "system"@ ==> taide_text(conversation)
            == taide_plain_turns(conversation),
        conversation.len() == 1 && conversation[0].role == "system"@ ==> taide_text(conversation)
            == Seq::<char>::empty(),
{
    lemma_taide_turns_without_header(conversation);
}

/// A Mistral instruct prompt opens with the opening token, and where the
/// last message is a user turn it ends on that turn's closing bracket: after
/// the turns of the messages before it stands the bracket of the last, and
/// nothing behind it.
pub proof fn lemma_mistral_ends_on_last_user_turn(conversation: Seq<MessageView>)
    requires
        conversation.len() >= 1,
        conversation.last().role == "user"@,
    ensures
        mistral_text(conversation) == mistral_text(conversation.drop_last()) + ("[INST] "@
            + conversation.last().content + " [/INST]"@),
        BOS_TOKEN@.is_prefix_of(mistral_text(conversation)),
        ("[INST] "@ + conversation.last().content + " [/INST]"@).is_suffix_of(
            mistral_text(conversation),
        ),
{
    let bracket = "[INST] "@ + conversation.last().content + " [/INST]"@;
    let before = mistral_text(conversation.drop_last());
    assert(mistral_text(conversation) =~= before + bracket);
    assert(BOS_TOKEN@ =~= mistral_text(conversation).subrange(0, BOS_TOKEN@.len() as int));
    assert(bracket =~= (before + bracket).subrange(
        (before + bracket).len() - bracket.len(),
        (before + bracket).len() as int,
    ));
}

/// In the TAIDE layout a leading system message acts as a prefix on the
/// content of the message after it and changes nothing else: a conversation
/// that does not open with a system message, with one put in front, has the
/// prompt of the conversation with the header put in front of its first content.
pub proof fn lemma_taide_system_is_a_prefix(system: Seq<char>, conversation: Seq<MessageView>)
    requires
        conversation.len() > 0,
        conversation[0].role != "system"@,
    ensures
        taide_text(seq![said("system"@, system)] + conversation) == taide_text(
            conversation.update(
                0,
                said(conversation[0].role, taide_header(system) + conversation[0].content),
            ),
        ),
{
    let with_system = seq![said("system"@, system)] + conversation;
    let merged = conversation.update(
        0,
        said(conversation[0].role, taide_header(system) + conversation[0].content),
    );
    assert(with_system.subrange(1, with_system.len() as int) =~= conversation);
    assert(merged.subrange(1, merged.len() as int) =~= conversation.subrange(
        1,
        conversation.len() as int,
    ));
    assert(Seq::<char>::empty() + merged[0].content =~= merged[0].content);
}

/// ChatML, a system message then a user message, generation prompt asked for.
pub proof fn lemma_chatml_system_then_user()
    ensures
        chatml_text(seq![said("system"@, "S"@), said("user"@, "Hello, who are you?"@)], true)
            == "<|im_start|>system\nS<|im_end|>\n<|im_start|>user\nHello, who are you?<|im_end|>\n<|im_start|>assistant\n"@,
{
    reveal_strlit("<|im_start|>");
    reveal_strlit("\n");
    reveal_strlit("<|im_end|>");
    reveal_strlit("<|im_start|>assistant\n");
    reveal_strlit("system");
    reveal_strlit("S");
    reveal_strlit("user");
    reveal_strlit("Hello, who are you?");
    reveal_strlit(
        "<|im_start|>system\nS<|im_end|>\n<|im_start|>user\nHello, who are you?<|im_end|>\n<|im_start|>assistant\n",
    );
    let first = said("system"@, "S"@);
    let second = said("user"@, "Hello, who are you?"@);
    lemma_chatml_turns_push(Seq::empty(), first);
    lemma_chatml_turns_push(seq![first], second);
    assert(seq![first, second] =~= seq![first].push(second));
    reveal_strlit("<|im_start|>system\nS<|im_end|>\n");
    reveal_strlit("<|im_start|>user\nHello, who are you?<|im_end|>\n");
    assert(chatml_turn(first) =~= "<|im_start|>system\nS<|im_end|>\n"@);
    assert(chatml_turn(second) =~= "<|im_start|>user\nHello, who are you?<|im_end|>\n"@);
    assert(chatml_turns(seq![first]) =~= chatml_turn(first));
    assert(chatml_text(seq![first, second], true)
        =~= "<|im_start|>system\nS<|im_end|>\n<|im_start|>user\nHello, who are you?<|im_end|>\n<|im_start|>assistant\n"@);
}

/// Mistral instruct, one user message.
pub proof fn lemma_mistral_one_user_message()
    ensures
        mistral_text(seq![said("user"@, "Hello, who are you?"@)])
            == "<s>[INST] Hello, who are you? [/INST]"@,
{
    reveal_strlit("<s>");
    reveal_strlit("[INST] ");
    reveal_strlit(" [/INST]");
    reveal_strlit("Hello, who are you?");
    reveal_strlit("<s>[INST] Hello, who are you? [/INST]");
    let only = said("user"@, "Hello, who are you?"@);
    lemma_mistral_turns_push(Seq::empty(), only);
    assert(mistral_text(seq![only]) =~= "<s>[INST] Hello, who are you? [/INST]"@);
}

/// Mistral instruct, five turns that alternate between user and assistant:
/// after the opening token the turns stand in the order given, a bracket for
/// each user turn and an end token after each assistant turn, and the prompt
/// ends on the closing bracket of the last user turn.
pub proof fn lemma_mistral_five_turns(
    q1: Seq<char>,
    a1: Seq<char>,
    q2: Seq<char>,
    a2: Seq<char>,
    q3: Seq<char>,
)
    ensures
        mistral_text(
            seq![
                said("user"@, q1),
                said("assistant"@, a1),
                said("user"@, q2),
                said("assistant"@, a2),
                said("user"@, q3),
            ],
        ) == "<s>"@ + (("[INST] "@ + q1 + " [/INST]"@) + (a1 + "</s>"@) + ("[INST] "@ + q2
            + " [/INST]"@) + (a2 + "</s>"@) + ("[INST] "@ + q3 + " [/INST]"@)),
{
    reveal_strlit("user");
    reveal_strlit("assistant");
    let m1 = said("user"@, q1);
    let m2 = said("assistant"@, a1);
    let m3 = said("user"@, q2);
    let m4 = said("assistant"@, a2);
    let m5 = said("user"@, q3);
    assert("user"@.len() == 4 && "assistant"@.len() == 9);
    lemma_mistral_turns_push(Seq::empty(), m1);
    lemma_mistral_turns_push(seq![m1], m2);
    lemma_mistral_turns_push(seq![m1, m2], m3);
    lemma_mistral_turns_push(seq![m1, m2, m3], m4);
    lemma_mistral_turns_push(seq![m1, m2, m3, m4], m5);
    assert(seq![m1, m2] =~= seq![m1].push(m2));
    assert(seq![m1, m2, m3] =~= seq![m1, m2].push(m3));
    assert(seq![m1, m2, m3, m4] =~= seq![m1, m2, m3].push(m4));
    assert(seq![m1, m2, m3, m4, m5] =~= seq![m1, m2, m3, m4].push(m5));
    let t1 = "[INST] "@ + q1 + " [/INST]"@;
    let t2 = a1 + "</s>"@;
    let t3 = "[INST] "@ + q2 + " [/INST]"@;
    let t4 = a2 + "</s>"@;
    let t5 = "[INST] "@ + q3 + " [/INST]"@;
    assert(mistral_turn(m1) == t1 && mistral_turn(m3) == t3 && mistral_turn(m5) == t5);
    assert(mistral_turn(m2) == t2 && mistral_turn(m4) == t4);
    assert(mistral_turns(seq![m1]) == t1) by {
        assert(Seq::<char>::empty() + t1 =~= t1);
    }
    assert(mistral_turns(seq![m1, m2]) == t1 + t2);
    assert(mistral_turns(seq![m1, m2, m3]) == t1 + t2 + t3);
    assert(mistral_turns(seq![m1, m2, m3, m4]) == t1 + t2 + t3 + t4);
    assert(mistral_turns(seq![m1, m2, m3, m4, m5]) == t1 + t2 + t3 + t4 + t5);
}

/// TAIDE, a system message then a user message.
pub proof fn lemma_taide_system_then_user()
    ensures
        taide_text(seq![said("system"@, "Sys"@), said("user"@, "Q1"@)])
            == "<s>[INST] <<SYS>>\nSys\n<</SYS>>\n\nQ1 [/INST]"@,
{
    reveal_strlit("<s>");
    reveal_strlit("[INST] ");
    reveal_strlit(" [/INST]");
    reveal_strlit("<<SYS>>\n");
    reveal_strlit("\n<</SYS>>\n\n");
    reveal_strlit("system");
    reveal_strlit("user");
    reveal_strlit("Sys");
    reveal_strlit("Q1");
    reveal_strlit("<s>[INST] <<SYS>>\nSys\n<</SYS>>\n\nQ1 [/INST]");
    let conversation = seq![said("system"@, "Sys"@), said("user"@, "Q1"@)];
    lemma_taide_header_stands_once(conversation);
    assert(conversation.subrange(2, 2) =~= Seq::<MessageView>::empty());
    assert(taide_text(conversation) =~= "<s>[INST] <<SYS>>\nSys\n<</SYS>>\n\nQ1 [/INST]"@);
}

/// TAIDE, a system message and five turns that alternate between user and
/// assistant: every turn has its own bracket or segment, in the order given,
/// and only the first user turn carries the header.
pub proof fn lemma_taide_system_then_five_turns(
    system: Seq<char>,
    q1: Seq<char>,
    a1: Seq<char>,
    q2: Seq<char>,
    a2: Seq<char>,
    q3: Seq<char>,
)
    ensures
        taide_text(
            seq![
                said("system"@, system),
                said("user"@, q1),
                said("assistant"@, a1),
                said("user"@, q2),
                said("assistant"@, a2),
                said("user"@, q3),
            ],
        ) == ("<s>"@ + "[INST] "@ + ("<<SYS>>\n"@ + system + "\n<</SYS>>\n\n"@ + q1)
            + " [/INST]"@) + ((" "@ + a1 + " "@ + "</s>"@) + ("<s>"@ + "[INST] "@ + q2
            + " [/INST]"@) + (" "@ + a2 + " "@ + "</s>"@) + ("<s>"@ + "[INST] "@ + q3
            + " [/INST]"@)),
{
    reveal_strlit("user");
    reveal_strlit("assistant");
    let m1 = said("user"@, q1);
    let m2 = said("assistant"@, a1);
    let m3 = said("user"@, q2);
    let m4 = said("assistant"@, a2);
    let m5 = said("user"@, q3);
    let conversation = seq![said("system"@, system), m1, m2, m3, m4, m5];
    lemma_taide_header_stands_once(conversation);
    assert(conversation.subrange(2, 6) =~= seq![m2, m3, m4, m5]);
    assert("user"@.len() == 4 && "assistant"@.len() == 9);
    lemma_taide_plain_turns_push(Seq::empty(), m2);
    lemma_taide_plain_turns_push(seq![m2], m3);
    lemma_taide_plain_turns_push(seq![m2, m3], m4);
    lemma_taide_plain_turns_push(seq![m2, m3, m4], m5);
    assert(seq![m2, m3] =~= seq![m2].push(m3));
    assert(seq![m2, m3, m4] =~= seq![m2, m3].push(m4));
    assert(seq![m2, m3, m4, m5] =~= seq![m2, m3, m4].push(m5));
    let t1 = "<s>"@ + "[INST] "@ + ("<<SYS>>\n"@ + system + "\n<</SYS>>\n\n"@ + q1) + " [/INST]"@;
    let t2 = " "@ + a1 + " "@ + "</s>"@;
    let t3 = "<s>"@ + "[INST] "@ + q2 + " [/INST]"@;
    let t4 = " "@ + a2 + " "@ + "</s>"@;
    let t5 = "<s>"@ + "[INST] "@ + q3 + " [/INST]"@;
    assert(taide_turn(m1.role, taide_header(system) + m1.content) == t1);
    assert(taide_turn(m2.role, m2.content) == t2 && taide_turn(m4.role, m4.content) == t4);
    assert(taide_turn(m3.role, m3.content) == t3 && taide_turn(m5.role, m5.content) == t5);
    assert(taide_plain_turns(seq![m2]) == t2) by {
        assert(Seq::<char>::empty() + t2 =~= t2);
    }
}

} // verus!
