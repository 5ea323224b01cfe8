//! The notification sounds.

use spambayes_addin::config::{Classification, NotificationConfig};
use spambayes_addin::double::Double;
use spambayes_addin::notification::{NotificationCommand, NotificationManager};

fn seconds(value: f64) -> Double {
    Double { bits: value.to_bits() }
}

fn manager(config: &NotificationConfig) -> NotificationManager {
    let delay = f64::from_bits(config.notify_accumulate_delay.bits);
    NotificationManager::new(config, &format!("{delay:.2}"))
}

/// Settings with sounds for all classifications.
fn enabled_config() -> NotificationConfig {
    NotificationConfig {
        notify_sound_enabled: true,
        notify_ham_sound: "C:\\sounds\\ham.wav".to_string(),
        notify_unsure_sound: "C:\\sounds\\unsure.wav".to_string(),
        notify_spam_sound: "C:\\sounds\\spam.wav".to_string(),
        notify_accumulate_delay: seconds(10.0),
    }
}

/// The same settings, turned off.
fn disabled_config() -> NotificationConfig {
    NotificationConfig { notify_sound_enabled: false, ..enabled_config() }
}

#[test]
fn new_manager_starts_with_no_pending() {
    let mgr = manager(&enabled_config());

    assert!(mgr.is_enabled());
    assert!(!mgr.is_timer_active());
    assert_eq!(mgr.pending_count(), 0);
    assert!(mgr.diagnostics().is_empty());
}

#[test]
fn new_manager_converts_delay_to_ms() {
    let config = NotificationConfig {
        notify_accumulate_delay: seconds(10.0),
        ..enabled_config()
    };
    let mgr = manager(&config);

    assert_eq!(mgr.accumulate_delay_ms(), 10000);
}

#[test]
fn new_manager_logs_diagnostic_for_low_delay() {
    let config = NotificationConfig {
        notify_accumulate_delay: seconds(0.3),
        ..enabled_config()
    };
    let mgr = manager(&config);

    assert_eq!(mgr.diagnostics().len(), 1);
    assert!(mgr.diagnostics()[0].contains("Accumulate delay"));
    assert!(mgr.diagnostics()[0].contains("outside valid range"));
}

#[test]
fn new_manager_logs_diagnostic_for_high_delay() {
    let config = NotificationConfig {
        notify_accumulate_delay: seconds(61.0),
        ..enabled_config()
    };
    let mgr = manager(&config);

    assert_eq!(mgr.diagnostics().len(), 1);
    assert!(mgr.diagnostics()[0].contains("outside valid range"));
}

#[test]
fn boundary_delay_values_are_valid() {
    // Minimum boundary: 0.5s
    let config = NotificationConfig {
        notify_accumulate_delay: seconds(0.5),
        ..enabled_config()
    };
    let mgr = manager(&config);
    assert!(mgr.diagnostics().is_empty());
    assert_eq!(mgr.accumulate_delay_ms(), 500);

    // Maximum boundary: 60.0s
    let config = NotificationConfig {
        notify_accumulate_delay: seconds(60.0),
        ..enabled_config()
    };
    let mgr = manager(&config);
    assert!(mgr.diagnostics().is_empty());
    assert_eq!(mgr.accumulate_delay_ms(), 60000);
}



#[test]
fn disabled_notifications_ignore_classifications() {
    let mut mgr = manager(&disabled_config());

    let commands = mgr.record_classification(Classification::Ham);

    assert!(commands.is_empty());
    assert_eq!(mgr.pending_count(), 0);
    assert!(!mgr.is_timer_active());
}



#[test]
fn record_classification_starts_timer() {
    let mut mgr = manager(&enabled_config());

    let commands = mgr.record_classification(Classification::Ham);

    assert_eq!(mgr.pending_count(), 1);
    assert!(mgr.is_timer_active());
    assert_eq!(
        commands,
        vec![NotificationCommand::StartAccumulateTimer(10000)]
    );
}

#[test]
fn record_second_classification_restarts_timer() {
    let mut mgr = manager(&enabled_config());

    mgr.record_classification(Classification::Ham);
    let commands = mgr.record_classification(Classification::Spam);

    assert_eq!(mgr.pending_count(), 2);
    assert!(mgr.is_timer_active());
    // Timer is restarted with the full delay
    assert_eq!(
        commands,
        vec![NotificationCommand::StartAccumulateTimer(10000)]
    );
}



#[test]
fn timer_fire_plays_ham_when_ham_present() {
    let mut mgr = manager(&enabled_config());

    mgr.record_classification(Classification::Ham);
    mgr.record_classification(Classification::Spam);
    mgr.record_classification(Classification::Unsure);

    let commands = mgr.on_accumulate_timer_fire();

    assert_eq!(
        commands,
        vec![NotificationCommand::PlaySound("C:\\sounds\\ham.wav".to_string())]
    );
    assert_eq!(mgr.pending_count(), 0);
    assert!(!mgr.is_timer_active());
}

#[test]
fn timer_fire_plays_unsure_when_no_ham() {
    let mut mgr = manager(&enabled_config());

    mgr.record_classification(Classification::Unsure);
    mgr.record_classification(Classification::Spam);

    let commands = mgr.on_accumulate_timer_fire();

    assert_eq!(
        commands,
        vec![NotificationCommand::PlaySound("C:\\sounds\\unsure.wav".to_string())]
    );
}

#[test]
fn timer_fire_plays_spam_when_only_spam() {
    let mut mgr = manager(&enabled_config());

    mgr.record_classification(Classification::Spam);
    mgr.record_classification(Classification::Spam);

    let commands = mgr.on_accumulate_timer_fire();

    assert_eq!(
        commands,
        vec![NotificationCommand::PlaySound("C:\\sounds\\spam.wav".to_string())]
    );
}



#[test]
fn fall_through_ham_to_unsure() {
    let config = NotificationConfig {
        notify_ham_sound: String::new(), // No ham sound configured
        ..enabled_config()
    };
    let mut mgr = manager(&config);

    mgr.record_classification(Classification::Ham);
    mgr.record_classification(Classification::Unsure);

    let commands = mgr.on_accumulate_timer_fire();

    // Ham is highest priority but no sound configured → fall through to unsure
    assert_eq!(
        commands,
        vec![NotificationCommand::PlaySound("C:\\sounds\\unsure.wav".to_string())]
    );
}

#[test]
fn fall_through_ham_to_spam_when_no_unsure_present() {
    let config = NotificationConfig {
        notify_ham_sound: String::new(), // No ham sound
        ..enabled_config()
    };
    let mut mgr = manager(&config);

    mgr.record_classification(Classification::Ham);
    mgr.record_classification(Classification::Spam);

    let commands = mgr.on_accumulate_timer_fire();

    // Ham present but no sound → unsure not present → fall through to spam
    assert_eq!(
        commands,
        vec![NotificationCommand::PlaySound("C:\\sounds\\spam.wav".to_string())]
    );
}

#[test]
fn fall_through_ham_and_unsure_to_spam() {
    let config = NotificationConfig {
        notify_ham_sound: String::new(),   // No ham sound
        notify_unsure_sound: String::new(), // No unsure sound
        ..enabled_config()
    };
    let mut mgr = manager(&config);

    mgr.record_classification(Classification::Ham);
    mgr.record_classification(Classification::Unsure);
    mgr.record_classification(Classification::Spam);

    let commands = mgr.on_accumulate_timer_fire();

    // Falls through all the way to spam
    assert_eq!(
        commands,
        vec![NotificationCommand::PlaySound("C:\\sounds\\spam.wav".to_string())]
    );
}

#[test]
fn fall_through_no_sound_configured_at_all() {
    let config = NotificationConfig {
        notify_ham_sound: String::new(),
        notify_unsure_sound: String::new(),
        notify_spam_sound: String::new(),
        ..enabled_config()
    };
    let mut mgr = manager(&config);

    mgr.record_classification(Classification::Ham);

    let commands = mgr.on_accumulate_timer_fire();

    // No sound configured for any classification → no PlaySound command
    assert!(commands.is_empty());
    assert_eq!(mgr.pending_count(), 0);
}

#[test]
fn fall_through_only_considers_present_classifications() {
    // Unsure sound is configured but unsure is NOT present in the batch
    let config = NotificationConfig {
        notify_ham_sound: String::new(), // No ham sound
        notify_unsure_sound: "C:\\sounds\\unsure.wav".to_string(),
        notify_spam_sound: "C:\\sounds\\spam.wav".to_string(),
        ..enabled_config()
    };
    let mut mgr = manager(&config);

    // Only ham and spam in batch — no unsure
    mgr.record_classification(Classification::Ham);
    mgr.record_classification(Classification::Spam);

    let commands = mgr.on_accumulate_timer_fire();

    // Ham present but no ham sound → unsure NOT present → spam present with sound
    assert_eq!(
        commands,
        vec![NotificationCommand::PlaySound("C:\\sounds\\spam.wav".to_string())]
    );
}



#[test]
fn timer_fire_with_no_pending_is_noop() {
    let mut mgr = manager(&enabled_config());

    let commands = mgr.on_accumulate_timer_fire();

    assert!(commands.is_empty());
}

#[test]
fn timer_fire_clears_pending_for_next_batch() {
    let mut mgr = manager(&enabled_config());

    mgr.record_classification(Classification::Ham);
    mgr.on_accumulate_timer_fire();

    // Second batch — only spam
    mgr.record_classification(Classification::Spam);
    let commands = mgr.on_accumulate_timer_fire();

    // Should play spam, not ham from previous batch
    assert_eq!(
        commands,
        vec![NotificationCommand::PlaySound("C:\\sounds\\spam.wav".to_string())]
    );
}



#[test]
fn full_lifecycle_single_classification() {
    let mut mgr = manager(&enabled_config());

    // 1. Message classified as unsure → starts timer
    let cmds = mgr.record_classification(Classification::Unsure);
    assert_eq!(
        cmds,
        vec![NotificationCommand::StartAccumulateTimer(10000)]
    );
    assert!(mgr.is_timer_active());

    // 2. Timer fires → play unsure sound
    let cmds = mgr.on_accumulate_timer_fire();
    assert_eq!(
        cmds,
        vec![NotificationCommand::PlaySound("C:\\sounds\\unsure.wav".to_string())]
    );
    assert!(!mgr.is_timer_active());
    assert_eq!(mgr.pending_count(), 0);
}

#[test]
fn full_lifecycle_batch_with_restart() {
    let config = NotificationConfig {
        notify_accumulate_delay: seconds(5.0),
        ..enabled_config()
    };
    let mut mgr = manager(&config);

    // 1. First message → spam
    let cmds = mgr.record_classification(Classification::Spam);
    assert_eq!(
        cmds,
        vec![NotificationCommand::StartAccumulateTimer(5000)]
    );

    // 2. Second message → ham (restarts timer)
    let cmds = mgr.record_classification(Classification::Ham);
    assert_eq!(
        cmds,
        vec![NotificationCommand::StartAccumulateTimer(5000)]
    );
    assert_eq!(mgr.pending_count(), 2);

    // 3. Timer fires → play ham (highest priority)
    let cmds = mgr.on_accumulate_timer_fire();
    assert_eq!(
        cmds,
        vec![NotificationCommand::PlaySound("C:\\sounds\\ham.wav".to_string())]
    );
    assert_eq!(mgr.pending_count(), 0);
}

#[test]
fn out_of_range_delay_still_functions() {
    let config = NotificationConfig {
        notify_accumulate_delay: seconds(0.2), // Too low
        ..enabled_config()
    };
    let mut mgr = manager(&config);

    // Should still work despite diagnostic
    assert!(!mgr.diagnostics().is_empty());

    let cmds = mgr.record_classification(Classification::Ham);
    assert_eq!(
        cmds,
        vec![NotificationCommand::StartAccumulateTimer(200)]
    );

    let cmds = mgr.on_accumulate_timer_fire();
    assert_eq!(
        cmds,
        vec![NotificationCommand::PlaySound("C:\\sounds\\ham.wav".to_string())]
    );
}

#[test]
fn diagnostic_names_the_delay() {
    let config = NotificationConfig { notify_accumulate_delay: seconds(0.25), ..enabled_config() };
    let mgr = manager(&config);
    assert_eq!(mgr.diagnostics()[0], "Accumulate delay 0.25s is outside valid range (0.5-60.0s)");
    assert_eq!(mgr.accumulate_delay_ms(), 250);
}

#[test]
fn delay_that_is_no_number_counts_as_zero() {
    let config = NotificationConfig {
        notify_accumulate_delay: seconds(f64::NAN),
        ..enabled_config()
    };
    let mgr = manager(&config);
    assert_eq!(mgr.accumulate_delay_ms(), 0);
    assert!(mgr.diagnostics().is_empty());
}

#[test]
fn delay_in_milliseconds_is_the_rounded_product() {
    for value in [0.001, 0.3, 1.1, 2.675, 59.999, 60.0, 1234.5678, 4294967.295, 1e300, -1.0] {
        let config = NotificationConfig {
            notify_accumulate_delay: seconds(value),
            ..enabled_config()
        };
        assert_eq!(manager(&config).accumulate_delay_ms(), (value * 1000.0) as u32);
    }
}

#[test]
fn order_and_number_in_a_batch_do_not_matter() {
    let mut one = manager(&enabled_config());
    one.record_classification(Classification::Spam);
    one.record_classification(Classification::Unsure);
    let mut other = manager(&enabled_config());
    other.record_classification(Classification::Unsure);
    other.record_classification(Classification::Spam);
    other.record_classification(Classification::Unsure);
    assert_eq!(one.on_accumulate_timer_fire(), other.on_accumulate_timer_fire());
}

#[test]
fn nothing_is_played_a_second_time() {
    let mut mgr = manager(&enabled_config());
    mgr.record_classification(Classification::Ham);
    assert_eq!(mgr.on_accumulate_timer_fire().len(), 1);
    assert!(mgr.on_accumulate_timer_fire().is_empty());
}
