use vstd::prelude::*;
use vstd::string::StringExecFns;

verus! {

/// One transcript entry: a role tag and its text content.
pub struct Message {
    pub role: String,
    pub content: String,
}

/// The serialized transcript so far: each message's wire form, in order.
pub open spec fn transcript_format(msgs: Seq<Message>) -> Seq<char>
    decreases msgs.len(),
{
    if msgs.len() == 0 {
        Seq::<char>::empty()
    } else {
        transcript_format(msgs.drop_last()) + msgs.last().spec_format()
    }
}

impl Message {
    /// The wire form of one message, fixed by the trained model's template.
    pub open spec fn spec_format(&self) -> Seq<char> {
        "<|im_start|>"@ + self.role@ + self.content@ + "<|im_end|>"@
    }

    /// Serializes the message for the prompt template.
    pub fn format(&self) -> (r: String)
        ensures
            r@ == self.spec_format(),
    {
        let mut s = String::from_str("<|im_start|>");
        s.append(self.role.as_str());
        s.append(self.content.as_str());
        s.append("<|im_end|>");
        s
    }
}

/// Builds the templated prompt for the next assistant turn: every message in
/// order, then the opening of the assistant's reply.
pub fn build_chat_prompt(messages: &Vec<Message>) -> (r: String)
    ensures
        r@ == transcript_format(messages@) + "<|im_start|>assistant"@,
{
    let mut s = String::new();
    let mut i: usize = 0;
    while i < messages.len()
        invariant
            0 <= i <= messages@.len(),
            s@ == transcript_format(messages@.take(i as int)),
        decreases messages@.len() - i,
    {
        let piece = messages[i].format();
        s.append(piece.as_str());
        proof {
            assert(messages@.take(i + 1).drop_last() =~= messages@.take(i as int));
            assert(messages@.take(i + 1).last() == messages@[i as int]);
        }
        i = i + 1;
    }
    proof {
        assert(messages@.take(messages@.len() as int) =~= messages@);
    }
    s.append("<|im_start|>assistant");
    s
}

} // verus!
