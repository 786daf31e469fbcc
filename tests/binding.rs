use bevy3dtest::animation::{Clip, PlaybackCommand};
use bevy3dtest::binding::{
    resolve_commands, AnimationBinding, BindingEntry, BindingError, NodeCommand,
};

fn full_binding() -> AnimationBinding {
    let mut binding = AnimationBinding::new();
    for (i, name) in ["static", "idle", "walk", "fall", "jump", "crouch"].iter().enumerate() {
        binding.insert(name.to_string(), 10 + i as u32);
    }
    binding
}

#[test]
fn lookup_finds_bound_names() {
    let binding = full_binding();
    assert_eq!(binding.lookup("walk"), Some(12));
    assert_eq!(binding.lookup("crouch"), Some(15));
    assert_eq!(binding.lookup("run"), None);
    assert_eq!(AnimationBinding::new().lookup("walk"), None);
}

#[test]
fn insert_replaces_a_bound_name() {
    let mut binding = full_binding();
    binding.insert("walk".to_string(), 99);
    assert_eq!(binding.lookup("walk"), Some(99));
    assert_eq!(binding.lookup("idle"), Some(11));
    assert_eq!(binding.entries.len(), 6);
}

#[test]
fn clip_names() {
    assert_eq!(Clip::Static.name(), "static");
    assert_eq!(Clip::Idle.name(), "idle");
    assert_eq!(Clip::Walk.name(), "walk");
    assert_eq!(Clip::Fall.name(), "fall");
    assert_eq!(Clip::Jump.name(), "jump");
    assert_eq!(Clip::Crouch.name(), "crouch");
}

#[test]
fn resolve_addresses_nodes() {
    let commands = vec![
        PlaybackCommand::StopAll,
        PlaybackCommand::Start { clip: Clip::Static, rate: 1000, looping: false },
        PlaybackCommand::Start { clip: Clip::Idle, rate: 1000, looping: true },
        PlaybackCommand::SetRate { clip: Clip::Walk, rate: 400 },
    ];
    assert_eq!(
        resolve_commands(&full_binding(), &commands),
        Ok(vec![
            NodeCommand::StopAll,
            NodeCommand::Start { node: 10, rate: 1000, looping: false },
            NodeCommand::Start { node: 11, rate: 1000, looping: true },
            NodeCommand::SetRate { node: 12, rate: 400 },
        ])
    );
}

#[test]
fn resolve_reports_a_missing_clip() {
    let mut binding = AnimationBinding::new();
    binding.insert("walk".to_string(), 3);
    let commands = vec![
        PlaybackCommand::StopAll,
        PlaybackCommand::Start { clip: Clip::Fall, rate: 1000, looping: true },
    ];
    assert_eq!(
        resolve_commands(&binding, &commands),
        Err(BindingError::MissingClip(Clip::Fall))
    );
    assert_eq!(resolve_commands(&binding, &vec![]), Ok(vec![]));
}

#[test]
fn from_clips_keeps_the_last_occurrence() {
    let clips = vec![
        BindingEntry { name: "walk".to_string(), node: 1 },
        BindingEntry { name: "idle".to_string(), node: 2 },
        BindingEntry { name: "walk".to_string(), node: 3 },
    ];
    let binding = AnimationBinding::from_clips(clips);
    assert_eq!(binding.lookup("walk"), Some(3));
    assert_eq!(binding.lookup("idle"), Some(2));
    assert_eq!(binding.lookup("fall"), None);
    assert_eq!(binding.entries.len(), 2);
}
