use pr_monitor::outcome::{classify, MergeSignal, PrOutcome, RemoteStatus};

fn all_signals() -> Vec<Option<MergeSignal>> {
    vec![
        None,
        Some(MergeSignal::Clean),
        Some(MergeSignal::Dirty),
        Some(MergeSignal::Unknown),
        Some(MergeSignal::Blocked),
        Some(MergeSignal::Unstable),
        Some(MergeSignal::Behind),
        Some(MergeSignal::Other),
    ]
}

#[test]
fn merged_wins_over_every_signal() {
    for signal in all_signals() {
        let status = RemoteStatus { merged: true, signal };
        assert_eq!(classify(&status), PrOutcome::Merged);
    }
}

#[test]
fn unmerged_signal_table() {
    let table = vec![
        (Some(MergeSignal::Behind), PrOutcome::Behind),
        (Some(MergeSignal::Clean), PrOutcome::UpToDate),
        (Some(MergeSignal::Dirty), PrOutcome::Conflicts),
        (Some(MergeSignal::Blocked), PrOutcome::Blocked),
        (Some(MergeSignal::Unknown), PrOutcome::Unknown),
        (Some(MergeSignal::Unstable), PrOutcome::Unknown),
        (Some(MergeSignal::Other), PrOutcome::Unknown),
        (None, PrOutcome::Unknown),
    ];
    for (signal, want) in table {
        let status = RemoteStatus { merged: false, signal };
        assert_eq!(classify(&status), want);
    }
}

#[test]
fn unmerged_never_classifies_merged() {
    for signal in all_signals() {
        let status = RemoteStatus { merged: false, signal };
        assert_ne!(classify(&status), PrOutcome::Merged);
    }
}
