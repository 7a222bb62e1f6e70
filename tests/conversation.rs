use chat_agent::conversation::{Conversation, SelectionError};
use chat_agent::manager::{ConversationManager, ConversationMeta, LoadFailure};
use chat_agent::message::{Message, ModelRef, Role, Status};
use chat_agent::selection::{step_next, step_prev};

fn user(text: &str) -> Message {
    Message::new(Role::User, text.to_string())
}

fn three() -> Conversation {
    Conversation::new(vec![user("a"), user("b"), user("c")])
}

#[test]
fn new_conversation_has_no_selection() {
    let c = three();
    assert_eq!(c.messages.len(), 3);
    assert_eq!(c.selected_message, None);
}

#[test]
fn add_message_selects_the_new_last() {
    let mut c = Conversation::new(vec![]);
    c.add_message(user(""));
    assert_eq!(c.selected_message, Some(0));
    c.add_message(user("x"));
    assert_eq!(c.selected_message, Some(c.messages.len() - 1));
    assert_eq!(c.messages[1].content, "x");
}

#[test]
fn delete_only_message_empties_and_clears_selection() {
    let mut c = Conversation::new(vec![user("hi")]);
    c.select_next_message();
    c.delete_selected_message();
    assert!(c.messages.is_empty());
    assert_eq!(c.selected_message, None);
}

#[test]
fn delete_selected_index_two_of_three() {
    let mut c = three();
    c.selected_message = Some(2);
    c.delete_selected_message();
    assert_eq!(c.selected_message, Some(1));
    assert_eq!(c.messages, vec![user("a"), user("b")]);
}

#[test]
fn delete_first_keeps_selection_at_zero() {
    let mut c = three();
    c.selected_message = Some(0);
    c.delete_selected_message();
    assert_eq!(c.selected_message, Some(0));
    assert_eq!(c.messages, vec![user("b"), user("c")]);
}

#[test]
fn delete_without_selection_changes_nothing() {
    let mut c = three();
    c.delete_selected_message();
    assert_eq!(c.messages.len(), 3);
    assert_eq!(c.selected_message, None);
}

#[test]
fn delete_with_stale_selection_changes_nothing() {
    let mut c = three();
    c.selected_message = Some(7);
    c.delete_selected_message();
    assert_eq!(c.messages.len(), 3);
    assert_eq!(c.selected_message, Some(7));
}

#[test]
fn select_prev_without_selection_starts_at_zero() {
    let mut c = three();
    c.select_prev_message();
    assert_eq!(c.selected_message, Some(0));
}

#[test]
fn select_next_without_selection_starts_at_zero() {
    let mut c = three();
    c.select_next_message();
    assert_eq!(c.selected_message, Some(0));
}

#[test]
fn selection_is_clamped_at_both_ends() {
    let mut c = three();
    for _ in 0..5 {
        c.select_next_message();
    }
    assert_eq!(c.selected_message, Some(2));
    for _ in 0..5 {
        c.select_prev_message();
    }
    assert_eq!(c.selected_message, Some(0));
}

#[test]
fn moves_on_empty_conversation_keep_no_selection() {
    let mut c = Conversation::new(vec![]);
    c.select_next_message();
    c.select_prev_message();
    c.select_next_message();
    assert_eq!(c.selected_message, None);
}

#[test]
fn move_sequences_stay_in_bounds() {
    let moves = [true, true, false, true, true, true, false, false, false, false, true];
    for n in 0..4usize {
        let mut c = Conversation::new((0..n).map(|i| user(&i.to_string())).collect());
        for &forward in moves.iter() {
            if forward {
                c.select_next_message();
            } else {
                c.select_prev_message();
            }
            match c.selected_message {
                Some(i) => assert!(i < n),
                None => assert_eq!(n, 0),
            }
        }
    }
}

#[test]
fn step_functions_at_the_largest_index() {
    assert_eq!(step_next(Some(usize::MAX), usize::MAX), Some(usize::MAX));
    assert_eq!(step_next(Some(usize::MAX - 2), usize::MAX), Some(usize::MAX - 1));
    assert_eq!(step_prev(Some(usize::MAX), 3), Some(usize::MAX - 1));
    assert_eq!(step_prev(None, 0), None);
}

#[test]
fn select_last_message_on_empty_is_none() {
    let mut c = Conversation::new(vec![]);
    c.select_last_message();
    assert_eq!(c.selected_message, None);
    let mut c = three();
    c.select_last_message();
    assert_eq!(c.selected_message, Some(2));
}

#[test]
fn replace_last_message_keeps_length() {
    let mut c = three();
    c.selected_message = Some(0);
    c.replace_last_message(user("z"));
    assert_eq!(c.messages, vec![user("a"), user("b"), user("z")]);
    assert_eq!(c.selected_message, Some(2));
}

#[test]
fn replace_last_message_on_empty_is_noop() {
    let mut c = Conversation::new(vec![]);
    c.replace_last_message(user("z"));
    assert!(c.messages.is_empty());
    assert_eq!(c.selected_message, None);
}

#[test]
fn focus_hooks_change_nothing() {
    let mut c = three();
    c.selected_message = Some(1);
    c.focus();
    c.unfocus();
    assert_eq!(c.selected_message, Some(1));
    assert_eq!(c.messages.len(), 3);
}

#[test]
fn get_selected_message_copies_it() {
    let mut c = three();
    assert_eq!(c.get_selected_message(), Err(SelectionError::NotFound));
    c.selected_message = Some(1);
    assert_eq!(c.get_selected_message(), Ok(user("b")));
    c.selected_message = Some(3);
    assert_eq!(c.get_selected_message(), Err(SelectionError::NotFound));
}

#[test]
fn message_clone_keeps_every_field() {
    let m = Message {
        role: Role::Assistant,
        content: "text".to_string(),
        status: Some(Status::Processing),
        model: Some(ModelRef::new("meta".to_string(), "llama".to_string())),
    };
    assert_eq!(m.clone(), m);
    let details = m.model.as_ref().unwrap().get_model_details();
    assert_eq!(details, ("meta".to_string(), "llama".to_string()));
}

fn metas() -> Vec<ConversationMeta> {
    vec![ConversationMeta::new("one".to_string()), ConversationMeta::new("two".to_string())]
}

#[test]
fn manager_navigation_is_clamped() {
    let mut m = ConversationManager::new(metas());
    assert_eq!(m.selected_conversation, None);
    m.select_prev_conversation();
    assert_eq!(m.selected_conversation, Some(0));
    m.select_next_conversation();
    m.select_next_conversation();
    assert_eq!(m.selected_conversation, Some(1));
    m.select_prev_conversation();
    assert_eq!(m.selected_conversation, Some(0));
}

#[test]
fn manager_add_keeps_selection_and_lists_paths() {
    let mut m = ConversationManager::new(metas());
    m.select_next_conversation();
    m.add_conversation(ConversationMeta::new("three".to_string()));
    assert_eq!(m.selected_conversation, Some(0));
    assert_eq!(m.list_conversations(), vec!["one", "two", "three"]);
}

#[test]
fn manager_empty_has_nothing_to_activate() {
    let mut m = ConversationManager::new(vec![]);
    m.select_next_conversation();
    assert_eq!(m.selected_conversation, None);
    assert!(m.selected_meta().is_none());
}

#[test]
fn manager_activation_success_and_failure() {
    let mut m = ConversationManager::new(metas());
    m.select_next_conversation();
    m.select_next_conversation();
    assert_eq!(m.selected_meta().unwrap().path, "two");
    assert_eq!(
        m.activate_selected_conversation(Ok(Conversation::new(vec![user("loaded")]))),
        Ok(())
    );
    assert_eq!(m.active_conversation.messages, vec![user("loaded")]);
    assert_eq!(m.activate_selected_conversation(Err(LoadFailure::Unreadable)), Err(LoadFailure::Unreadable));
    assert_eq!(m.active_conversation.messages, vec![user("loaded")]);
}
