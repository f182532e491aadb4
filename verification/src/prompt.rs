//! Prompt augmentation and the chat request: retrieved context is woven
//! around the user's query with a fixed template, and the resulting message
//! pair is wrapped for the chat-completion service.

use vstd::prelude::*;
use crate::store::QueryMatch;

verus! {

/// One chat message: a role (`system`, `user` or `assistant`) and its text.
pub struct LLMMessage {
    pub role: String,
    pub content: String,
}

/// A chat-completion request, ready to serialize and send: the fixed model
/// and the full ordered message list.
pub struct ChatRequest {
    pub model: String,
    pub messages: Vec<LLMMessage>,
}

/// Context ids joined one per line: a single newline between neighbours,
/// none at either end.
pub open spec fn joined_ids(ids: Seq<Seq<char>>) -> Seq<char>
    decreases ids.len(),
{
    if ids.len() == 0 {
        Seq::empty()
    } else if ids.len() == 1 {
        ids[0]
    } else {
        ids[0] + seq!['\n'] + joined_ids(ids.drop_first())
    }
}

/// The ids of a match sequence, in the order the store returned them.
pub open spec fn match_ids(ms: Seq<QueryMatch>) -> Seq<Seq<char>> {
    ms.map_values(|m: QueryMatch| m.id@)
}

/// The augmented prompt: the fixed template around the joined context and
/// the literal query.
pub open spec fn augmented_prompt(query: Seq<char>, ids: Seq<Seq<char>>) -> Seq<char> {
    "Using the context below, answer the query.\n\nContext: "@ + joined_ids(ids) + "\n\nQuery: "@
        + query + "\n"@
}

proof fn lemma_joined_push(ids: Seq<Seq<char>>, x: Seq<char>)
    requires
        ids.len() >= 1,
    ensures
        joined_ids(ids.push(x)) == joined_ids(ids) + seq!['\n'] + x,
    decreases ids.len(),
{
    if ids.len() == 1 {
        assert(ids.push(x).drop_first() =~= seq![x]);
        assert(joined_ids(seq![x]) == x);
        assert(joined_ids(ids.push(x)) =~= ids[0] + seq!['\n'] + x);
        assert(joined_ids(ids) == ids[0]);
    } else {
        let rest = ids.drop_first();
        assert(ids.push(x).drop_first() =~= rest.push(x));
        lemma_joined_push(rest, x);
        assert(joined_ids(ids.push(x)) == ids[0] + seq!['\n'] + joined_ids(rest.push(x)));
        assert(ids[0] + seq!['\n'] + (joined_ids(rest) + seq!['\n'] + x) =~= (ids[0] + seq!['\n']
            + joined_ids(rest)) + seq!['\n'] + x);
    }
}

/// Builds the augmented prompt from the query and the matches the store
/// returned, keeping the store's order: each match contributes its id (the
/// stored text) as context, one per line, followed by the literal query.
pub fn augment_prompt(query: &str, query_matches: &Vec<QueryMatch>) -> (p: String)
    ensures
        p@ == augmented_prompt(query@, match_ids(query_matches@)),
{
    let ghost ids = match_ids(query_matches@);
    let mut source_knowledge = String::new();
    let mut i: usize = 0;
    proof {
        assert(ids.take(0) =~= Seq::<Seq<char>>::empty());
        assert(source_knowledge@ =~= joined_ids(ids.take(0)));
    }
    while i < query_matches.len()
        invariant
            i <= query_matches@.len(),
            ids == match_ids(query_matches@),
            ids.len() == query_matches@.len(),
            source_knowledge@ == joined_ids(ids.take(i as int)),
        decreases query_matches@.len() - i,
    {
        let ghost prev = source_knowledge@;
        if i > 0 {
            source_knowledge.append("\n");
            proof {
                reveal_strlit("\n");
            }
        }
        source_knowledge.append(query_matches[i].id.as_str());
        proof {
            assert(ids.take(i + 1) =~= ids.take(i as int).push(ids[i as int]));
            assert(ids[i as int] == query_matches@[i as int].id@);
            if i == 0 {
                assert(ids.take(1) =~= seq![ids[0]]);
                assert(joined_ids(seq![ids[0]]) == ids[0]);
                assert(source_knowledge@ =~= prev + ids[0]);
                assert(prev + ids[0] =~= ids[0]);
            } else {
                lemma_joined_push(ids.take(i as int), ids[i as int]);
                assert("\n"@ =~= seq!['\n']);
                assert(source_knowledge@ =~= (prev + seq!['\n']) + ids[i as int]);
                assert((prev + seq!['\n']) + ids[i as int] =~= prev + seq!['\n'] + ids[i as int]);
            }
        }
        i = i + 1;
    }
    proof {
        assert(ids.take(ids.len() as int) =~= ids);
    }
    let mut p = String::from_str("Using the context below, answer the query.\n\nContext: ");
    p.append(source_knowledge.as_str());
    p.append("\n\nQuery: ");
    p.append(query);
    p.append("\n");
    proof {
        assert(p@ =~= augmented_prompt(query@, ids));
    }
    p
}

/// Wraps the augmented prompt as the conversation sent to the chat service:
/// the fixed system persona first, then the prompt as the user turn.
pub fn build_messages(augmented: String) -> (msgs: Vec<LLMMessage>)
    ensures
        msgs@.len() == 2,
        msgs@[0].role@ == "system"@,
        msgs@[0].content@ == "You are a helpful assistant!"@,
        msgs@[1].role@ == "user"@,
        msgs@[1].content@ == augmented@,
{
    let mut msgs: Vec<LLMMessage> = Vec::new();
    msgs.push(
        LLMMessage {
            role: String::from_str("system"),
            content: String::from_str("You are a helpful assistant!"),
        },
    );
    msgs.push(LLMMessage { role: String::from_str("user"), content: augmented });
    msgs
}

/// Wraps a message list as a chat-completion request under the fixed model.
pub fn build_chat_request(messages: Vec<LLMMessage>) -> (req: ChatRequest)
    ensures
        req.model@ == "gpt-3.5-turbo"@,
        req.messages == messages,
{
    ChatRequest { model: String::from_str("gpt-3.5-turbo"), messages }
}

} // verus!
