use dockyard_pages::action::{action_for_key, completion, nav_for_key, ActionKind, Completion};
use dockyard_pages::dialog::DialogState;
use dockyard_pages::errors::{classify_status, mutation_error, BackendError, PageError};
use dockyard_pages::keys::{Key, MessageResponse};
use dockyard_pages::pages::{Containers, Images};
use dockyard_pages::resource::{ContainerRecord, ImageRecord, Lifecycle, Resource};
use dockyard_pages::selection::Nav;

fn container(id: &str) -> ContainerRecord {
    ContainerRecord {
        id: id.to_string(),
        image: format!("image-of-{id}"),
        command: "sleep 1".to_string(),
        created: 0,
        status: "Up".to_string(),
        ports: String::new(),
        names: id.to_string(),
        lifecycle: Lifecycle::Running,
    }
}

fn image(id: &str) -> ImageRecord {
    ImageRecord {
        id: id.to_string(),
        name: "nginx".to_string(),
        tag: "latest".to_string(),
        created: String::new(),
        size: "1MB".to_string(),
    }
}

fn three_containers() -> Containers {
    let mut c = Containers::new(true);
    c.page
        .set_visible(Ok(vec![container("c1"), container("c2"), container("c3")]))
        .unwrap();
    c
}

fn current_id(c: &Containers) -> Option<String> {
    c.page.current().map(|r| r.id())
}

#[test]
fn delete_confirmed_removes_and_clamps() {
    let mut c = three_containers();
    assert_eq!(c.page.list().selected(), Some(0));
    let d = c.page.update(Key::Down).unwrap();
    assert_eq!(d.response, MessageResponse::Consumed);
    assert_eq!(c.page.list().selected(), Some(1));

    let d = c.page.update(Key::Char('d')).unwrap();
    assert_eq!(d.response, MessageResponse::Consumed);
    assert!(d.run.is_none());
    match c.page.dialog() {
        DialogState::Open { prompt, action } => {
            assert_eq!(prompt, "c2");
            assert_eq!(action.kind, ActionKind::Remove);
            assert_eq!(action.target, "c2");
        }
        _ => panic!("dialog should be open"),
    }

    let d = c.page.update(Key::Char('y')).unwrap();
    assert_eq!(d.response, MessageResponse::Consumed);
    let run = d.run.expect("remove should be handed out");
    assert_eq!(run.kind, ActionKind::Remove);
    assert_eq!(run.target, "c2");
    assert!(matches!(c.page.dialog(), DialogState::Closed));
    assert!(c.page.is_busy());

    let done = c.page.complete_action(Ok(()));
    assert_eq!(done, Completion { refresh: true, error: None });
    assert!(!c.page.is_busy());
    c.page.refresh(Ok(vec![container("c1"), container("c3")])).unwrap();
    assert_eq!(c.page.list().selected(), Some(1));
    assert_eq!(current_id(&c), Some("c3".to_string()));
}

#[test]
fn delete_declined_calls_nothing() {
    let mut c = three_containers();
    c.page.update(Key::Char('j')).unwrap();
    c.page.update(Key::Char('d')).unwrap();
    assert!(matches!(c.page.dialog(), DialogState::Open { .. }));
    let d = c.page.update(Key::Char('n')).unwrap();
    assert_eq!(d.response, MessageResponse::Consumed);
    assert!(d.run.is_none());
    assert!(matches!(c.page.dialog(), DialogState::Closed));
    assert!(!c.page.is_busy());
    assert_eq!(c.page.list().len(), 3);
    assert_eq!(c.page.list().selected(), Some(1));
    assert_eq!(current_id(&c), Some("c2".to_string()));
}

#[test]
fn failed_list_keeps_display() {
    let mut c = three_containers();
    c.page.update(Key::Char('G')).unwrap();
    assert_eq!(c.page.list().selected(), Some(2));
    let r = c.page.refresh(Err(BackendError::Unreachable));
    assert_eq!(r, Err(PageError::BackendUnavailable));
    assert_eq!(c.page.list().len(), 3);
    assert_eq!(c.page.list().selected(), Some(2));
    assert_eq!(current_id(&c), Some("c3".to_string()));
}

#[test]
fn second_delete_rejected_while_in_flight() {
    let mut c = three_containers();
    let mut removes = 0;
    c.page.update(Key::Char('d')).unwrap();
    let d = c.page.update(Key::Char('y')).unwrap();
    if d.run.is_some() {
        removes += 1;
    }
    assert!(c.page.is_busy());
    let second = c.page.update(Key::Char('d'));
    assert_eq!(second.unwrap_err(), PageError::ActionInProgress);
    assert!(matches!(c.page.dialog(), DialogState::Closed));
    let start = c.page.update(Key::Char('r'));
    assert_eq!(start.unwrap_err(), PageError::ActionInProgress);
    assert_eq!(removes, 1);
    c.page.complete_action(Ok(()));
    assert!(!c.page.is_busy());
    assert!(c.page.update(Key::Char('d')).is_ok());
}

#[test]
fn direct_actions_skip_dialog() {
    let mut c = three_containers();
    let d = c.page.update(Key::Char('s')).unwrap();
    let run = d.run.unwrap();
    assert_eq!(run.kind, ActionKind::Stop);
    assert_eq!(run.target, "c1");
    assert!(matches!(c.page.dialog(), DialogState::Closed));
    let done = c.page.complete_action(Err(BackendError::Conflict));
    assert_eq!(done, Completion { refresh: true, error: Some(PageError::Conflict) });

    let d = c.page.update(Key::Char('a')).unwrap();
    assert_eq!(d.run.unwrap().kind, ActionKind::Attach);
    let done = c.page.complete_action(Err(BackendError::Unreachable));
    assert_eq!(done, Completion { refresh: false, error: Some(PageError::BackendUnavailable) });

    c.page.update(Key::Down).unwrap();
    let d = c.page.update(Key::Char('r')).unwrap();
    let run = d.run.unwrap();
    assert_eq!(run.kind, ActionKind::Start);
    assert_eq!(run.target, "c2");
}

#[test]
fn hidden_page_takes_nothing() {
    let mut c = Containers::new(false);
    assert!(!c.page.is_visible());
    let d = c.page.update(Key::Down).unwrap();
    assert_eq!(d.response, MessageResponse::NotConsumed);
    assert!(c.page.refresh(Ok(vec![container("c1")])).is_ok());
    assert_eq!(c.page.list().len(), 0);
    c.page.set_visible(Ok(vec![container("c1")])).unwrap();
    assert_eq!(c.page.list().selected(), Some(0));
    c.page.set_invisible();
    let d = c.page.update(Key::Char('d')).unwrap();
    assert_eq!(d.response, MessageResponse::NotConsumed);
    assert!(matches!(c.page.dialog(), DialogState::Closed));
}

#[test]
fn open_dialog_swallows_navigation() {
    let mut c = three_containers();
    c.page.update(Key::Char('d')).unwrap();
    let d = c.page.update(Key::Down).unwrap();
    assert_eq!(d.response, MessageResponse::NotConsumed);
    assert_eq!(c.page.list().selected(), Some(0));
    assert!(matches!(c.page.dialog(), DialogState::Open { .. }));
}

#[test]
fn unknown_key_not_consumed() {
    let mut c = three_containers();
    let d = c.page.update(Key::Char('z')).unwrap();
    assert_eq!(d.response, MessageResponse::NotConsumed);
    assert!(d.run.is_none());
}

#[test]
fn delete_without_selection_not_consumed() {
    let mut c = Containers::new(true);
    c.page.set_visible(Ok(vec![])).unwrap();
    assert_eq!(c.page.list().selected(), None);
    let d = c.page.update(Key::Char('d')).unwrap();
    assert_eq!(d.response, MessageResponse::NotConsumed);
    assert!(matches!(c.page.dialog(), DialogState::Closed));
    c.page.update(Key::Char('j')).unwrap();
    assert_eq!(c.page.list().selected(), None);
}

#[test]
fn images_delete_with_ctrl_d() {
    let mut p = Images::new();
    assert!(!p.page.is_visible());
    assert_eq!(p.page.name(), "Images");
    p.page.set_visible(Ok(vec![image("sha1"), image("sha2")])).unwrap();
    let d = p.page.update(Key::Char('d')).unwrap();
    assert_eq!(d.response, MessageResponse::NotConsumed);
    let d = p.page.update(Key::Char('s')).unwrap();
    assert_eq!(d.response, MessageResponse::NotConsumed);
    p.page.update(Key::Char('j')).unwrap();
    p.page.update(Key::Ctrl('d')).unwrap();
    let d = p.page.update(Key::Char('y')).unwrap();
    let run = d.run.unwrap();
    assert_eq!(run.kind, ActionKind::Remove);
    assert_eq!(run.target, "sha2");
    let done = p.page.complete_action(Err(BackendError::NotFound));
    assert_eq!(done, Completion { refresh: true, error: Some(PageError::NotFound) });
}

#[test]
fn containers_page_name() {
    let c = Containers::new(true);
    assert_eq!(c.page.name(), "Containers");
    assert!(c.page.is_visible());
}

#[test]
fn status_codes_classified() {
    assert_eq!(classify_status(404), BackendError::NotFound);
    assert_eq!(classify_status(409), BackendError::Conflict);
    assert_eq!(classify_status(304), BackendError::Conflict);
    assert_eq!(classify_status(401), BackendError::Unauthorized);
    assert_eq!(classify_status(403), BackendError::Unauthorized);
    assert_eq!(classify_status(500), BackendError::Unknown);
}

#[test]
fn mutation_errors_mapped() {
    assert_eq!(mutation_error(BackendError::NotFound), PageError::NotFound);
    assert_eq!(mutation_error(BackendError::Conflict), PageError::Conflict);
    assert_eq!(mutation_error(BackendError::Unauthorized), PageError::BackendUnavailable);
    assert_eq!(mutation_error(BackendError::Unknown), PageError::BackendUnavailable);
}

#[test]
fn completion_without_call_asks_nothing() {
    assert_eq!(completion(false, Ok(())), Completion { refresh: false, error: None });
    assert_eq!(
        completion(true, Err(BackendError::Unknown)),
        Completion { refresh: false, error: Some(PageError::BackendUnavailable) }
    );
}

#[test]
fn key_maps() {
    assert_eq!(nav_for_key(Key::Up), Some(Nav::Up));
    assert_eq!(nav_for_key(Key::Char('k')), Some(Nav::Up));
    assert_eq!(nav_for_key(Key::Char('j')), Some(Nav::Down));
    assert_eq!(nav_for_key(Key::Char('g')), Some(Nav::First));
    assert_eq!(nav_for_key(Key::Char('G')), Some(Nav::Last));
    assert_eq!(nav_for_key(Key::Char('d')), None);
    let c = Containers::new(false);
    let b = *c.page.bindings();
    assert_eq!(action_for_key(b, Key::Char('d')), Some(ActionKind::Remove));
    assert_eq!(action_for_key(b, Key::Char('r')), Some(ActionKind::Start));
    assert_eq!(action_for_key(b, Key::Char('s')), Some(ActionKind::Stop));
    assert_eq!(action_for_key(b, Key::Char('a')), Some(ActionKind::Attach));
    assert_eq!(action_for_key(b, Key::Char('x')), None);
}
