use cueplayer::cue::{Cue, CueAction};
use cueplayer::registry::CueManager;

fn play(id: u32, file: &str) -> Cue {
    Cue::play(id, file.to_string())
}

fn file_of(c: &Cue) -> String {
    match &c.actions {
        CueAction::Play { file, .. } => file.clone(),
        CueAction::Stop { .. } => panic!("not a play cue"),
    }
}

#[test]
fn define_then_get_returns_the_cue() {
    let mut m = CueManager::new();
    m.define_cue(Cue {
        id: 4,
        actions: CueAction::Play { file: "x.wav".to_string(), fade_in: Some(100), fade_out: None },
    });
    let c = m.get_cue(4).expect("cue 4 is defined");
    assert_eq!(c.id, 4);
    match &c.actions {
        CueAction::Play { file, fade_in, fade_out } => {
            assert_eq!(file, "x.wav");
            assert_eq!(*fade_in, Some(100));
            assert_eq!(*fade_out, None);
        }
        CueAction::Stop { .. } => panic!("wrong action"),
    }
}

#[test]
fn get_undefined_is_none() {
    let m = CueManager::new();
    assert!(m.get_cue(1).is_none());
    assert!(!m.contains(1));
}

#[test]
fn define_twice_keeps_second() {
    let mut m = CueManager::new();
    m.define_cue(play(1, "a.wav"));
    m.define_cue(play(1, "b.wav"));
    assert_eq!(file_of(m.get_cue(1).unwrap()), "b.wav");
    assert_eq!(m.sorted_ids(), vec![1]);
    assert_eq!(m.list().len(), 1);
}

#[test]
fn remove_absent_is_noop() {
    let mut m = CueManager::new();
    m.define_cue(play(2, "a.wav"));
    m.remove_cue(7);
    assert_eq!(m.sorted_ids(), vec![2]);
    assert_eq!(file_of(m.get_cue(2).unwrap()), "a.wav");
}

#[test]
fn remove_present_deletes() {
    let mut m = CueManager::new();
    m.define_cue(play(2, "a.wav"));
    m.define_cue(play(3, "b.wav"));
    m.remove_cue(2);
    assert!(m.get_cue(2).is_none());
    assert_eq!(m.sorted_ids(), vec![3]);
}

#[test]
fn ids_and_list_are_ascending() {
    let mut m = CueManager::new();
    m.define_cue(play(3, "c.wav"));
    m.define_cue(play(1, "a.wav"));
    m.define_cue(play(2, "b.wav"));
    assert_eq!(m.sorted_ids(), vec![1, 2, 3]);
    let l = m.list();
    let ids: Vec<u32> = l.iter().map(|c| c.id).collect();
    assert_eq!(ids, vec![1, 2, 3]);
    assert_eq!(file_of(&l[0]), "a.wav");
    assert_eq!(file_of(&l[2]), "c.wav");
}

#[test]
fn empty_registry_lists_nothing() {
    let m = CueManager::new();
    assert!(m.sorted_ids().is_empty());
    assert!(m.list().is_empty());
}

#[test]
fn extreme_ids_sort() {
    let mut m = CueManager::new();
    m.define_cue(play(u32::MAX, "z.wav"));
    m.define_cue(play(0, "a.wav"));
    m.define_cue(play(17, "m.wav"));
    assert_eq!(m.sorted_ids(), vec![0, 17, u32::MAX]);
}
