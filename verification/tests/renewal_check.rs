use xlm_ns::renewal::{
    auto_renew_texts, no_names_text, report_header, report_row, report_rows, report_summary, AutoRenewOutcome,
    NameExpiry,
    auto_renew_action, check_auto_renew_config, days_between, order_report, report_line, summary_counts,
    wants_renewal_cost, AutoRenewAction, PageStep, PortfolioOptions, PortfolioPager, RenewalCheckRecord, Urgency,
};

const DAY: u64 = 86_400;

#[test]
fn classify_ok_when_well_beyond_warn_threshold() {
    let now = 1_000_000_000;
    let expires_at = now + 60 * DAY;
    let grace_ends = expires_at + 30 * DAY;
    assert_eq!(
        Urgency::classify(expires_at, grace_ends, now, 30),
        Urgency::Healthy
    );
}

#[test]
fn classify_warning_at_threshold_boundary() {
    let now = 1_000_000_000;
    let warn_days = 30;
    // Exactly at the threshold (inclusive) should already warn.
    let expires_at = now + u64::from(warn_days) * DAY;
    let grace_ends = expires_at + 30 * DAY;
    assert_eq!(
        Urgency::classify(expires_at, grace_ends, now, warn_days),
        Urgency::Warning
    );

    // One second beyond the threshold should still be OK.
    let expires_at_ok = expires_at + 1;
    assert_eq!(
        Urgency::classify(expires_at_ok, expires_at_ok + 30 * DAY, now, warn_days),
        Urgency::Healthy
    );
}

#[test]
fn classify_grace_period_after_expiry_before_grace_end() {
    let now = 1_000_000_000;
    let expires_at = now - DAY;
    let grace_ends = now + 10 * DAY;
    assert_eq!(
        Urgency::classify(expires_at, grace_ends, now, 30),
        Urgency::GracePeriod
    );
}

#[test]
fn classify_claimable_after_grace_period_ends() {
    let now = 1_000_000_000;
    let expires_at = now - 60 * DAY;
    let grace_ends = now - DAY;
    assert_eq!(
        Urgency::classify(expires_at, grace_ends, now, 30),
        Urgency::Claimable
    );
}

#[test]
fn urgency_orders_most_critical_first() {
    let mut urgencies = vec![
        Urgency::Healthy,
        Urgency::Claimable,
        Urgency::Warning,
        Urgency::GracePeriod,
    ];
    urgencies.sort();
    assert_eq!(
        urgencies,
        vec![
            Urgency::Claimable,
            Urgency::GracePeriod,
            Urgency::Warning,
            Urgency::Healthy,
        ]
    );
}

#[test]
fn only_warning_and_grace_period_are_auto_renew_eligible() {
    assert!(!Urgency::Healthy.auto_renew_eligible());
    assert!(Urgency::Warning.auto_renew_eligible());
    assert!(Urgency::GracePeriod.auto_renew_eligible());
    assert!(!Urgency::Claimable.auto_renew_eligible());
}

#[test]
fn days_between_rounds_up_for_future_and_past_timestamps() {
    let now = 1_000_000_000;
    assert_eq!(days_between(now, now), 0);
    assert_eq!(days_between(now, now + 1), 1);
    assert_eq!(days_between(now, now + DAY), 1);
    assert_eq!(days_between(now, now + DAY + 1), 2);
    assert_eq!(days_between(now, now - 1), -1);
    assert_eq!(days_between(now, now - DAY), -1);
    assert_eq!(days_between(now, now - DAY - 1), -2);
}

#[test]
fn urgency_labels_tags_and_colors() {
    assert_eq!(Urgency::Claimable.label(), "claimable");
    assert_eq!(Urgency::GracePeriod.label(), "grace_period");
    assert_eq!(Urgency::Warning.label(), "warning");
    assert_eq!(Urgency::Healthy.label(), "ok");
    assert_eq!(Urgency::GracePeriod.human_tag(), "GRACE PERIOD");
    assert_eq!(Urgency::Healthy.human_tag(), "OK");
    assert_eq!(Urgency::Claimable.color(), "red");
    assert_eq!(Urgency::GracePeriod.color(), "red");
    assert_eq!(Urgency::Warning.color(), "yellow");
    assert_eq!(Urgency::Healthy.color(), "green");
}

#[test]
fn rank_matches_report_order() {
    assert_eq!(Urgency::Claimable.rank(), 0);
    assert_eq!(Urgency::GracePeriod.rank(), 1);
    assert_eq!(Urgency::Warning.rank(), 2);
    assert_eq!(Urgency::Healthy.rank(), 3);
}

#[test]
fn classify_grace_end_instant_is_still_renewable() {
    let now = 1_000_000_000;
    assert_eq!(
        Urgency::classify(now - DAY, now, now, 30),
        Urgency::GracePeriod
    );
    assert_eq!(Urgency::classify(now, now, now, 0), Urgency::Warning);
}

fn row(name: &str, urgency: Urgency, days: i64) -> (Urgency, RenewalCheckRecord) {
    (
        urgency,
        RenewalCheckRecord {
            name: name.to_string(),
            owner: "GOWNER".to_string(),
            status: urgency.label(),
            days_remaining: days,
            expires_at: 0,
            grace_period_ends_at: 0,
            renewal_cost: None,
            renewal_currency: None,
            auto_renew_status: None,
            auto_renew_tx_hash: None,
        },
    )
}

#[test]
fn report_orders_by_urgency_then_days_and_keeps_ties_in_order() {
    let rows = vec![
        row("fine.xlm", Urgency::Healthy, 90),
        row("late.xlm", Urgency::GracePeriod, -3),
        row("soon-b.xlm", Urgency::Warning, 5),
        row("gone.xlm", Urgency::Claimable, -40),
        row("soon-a.xlm", Urgency::Warning, 2),
        row("soon-c.xlm", Urgency::Warning, 5),
    ];
    let ordered: Vec<String> = order_report(rows).into_iter().map(|(_, r)| r.name).collect();
    assert_eq!(
        ordered,
        vec!["gone.xlm", "late.xlm", "soon-a.xlm", "soon-b.xlm", "soon-c.xlm", "fine.xlm"]
    );
}

#[test]
fn report_line_shows_tag_timing_cost_and_auto_renew() {
    let (_, mut rec) = row("alice.xlm", Urgency::Warning, 12);
    rec.renewal_cost = Some(100);
    rec.renewal_currency = Some("XLM".to_string());
    rec.auto_renew_status = Some("submitted".to_string());
    rec.auto_renew_tx_hash = Some("abc".to_string());
    let (line, color) = report_line(&rec);
    assert_eq!(
        line,
        "  [WARNING] alice.xlm - expires in 12 day(s), renewal cost: 100 XLM | auto-renew: submitted (abc)"
    );
    assert_eq!(color, "yellow");

    let (_, gone) = row("bob.xlm", Urgency::Claimable, -3);
    let (line, color) = report_line(&gone);
    assert_eq!(line, "  [CLAIMABLE] bob.xlm - expired 3 day(s) ago");
    assert_eq!(color, "red");
}

#[test]
fn summary_counts_each_group() {
    let rows: Vec<RenewalCheckRecord> = vec![
        row("a.xlm", Urgency::Claimable, -10),
        row("b.xlm", Urgency::Warning, 3),
        row("c.xlm", Urgency::Warning, 4),
        row("d.xlm", Urgency::Healthy, 80),
    ]
    .into_iter()
    .map(|(_, r)| r)
    .collect();
    assert_eq!(summary_counts(&rows), (1, 0, 2, 1));
}

#[test]
fn auto_renew_needs_a_registrar_and_an_eligible_name() {
    assert!(check_auto_renew_config(true, false).is_err());
    assert!(check_auto_renew_config(true, true).is_ok());
    assert!(check_auto_renew_config(false, false).is_ok());
    assert_eq!(auto_renew_action(true, Urgency::Warning, true), AutoRenewAction::Simulate);
    assert_eq!(auto_renew_action(true, Urgency::GracePeriod, false), AutoRenewAction::Submit);
    assert_eq!(auto_renew_action(true, Urgency::Claimable, false), AutoRenewAction::Skip);
    assert_eq!(auto_renew_action(false, Urgency::Warning, false), AutoRenewAction::Skip);
    assert!(wants_renewal_cost(true, Urgency::GracePeriod));
    assert!(!wants_renewal_cost(true, Urgency::Claimable));
    assert!(!wants_renewal_cost(false, Urgency::Warning));
}

#[test]
fn pager_walks_pages_and_halves_on_timeout() {
    let mut pager = PortfolioPager::new(PortfolioOptions { batch_size: 10, limit: Some(15), page: None });
    assert_eq!(pager.next_step(), PageStep::Fetch { cursor: None, count: 10 });
    assert!(pager.on_timeout());
    assert_eq!(pager.next_step(), PageStep::Fetch { cursor: None, count: 5 });
    pager.on_page(5, Some(5));
    assert_eq!(pager.next_step(), PageStep::Fetch { cursor: Some(5), count: 5 });
    pager.on_page(5, Some(10));
    assert_eq!(pager.next_step(), PageStep::Fetch { cursor: Some(10), count: 5 });
    pager.on_page(5, Some(15));
    assert_eq!(pager.next_step(), PageStep::Finished);

    let mut single = PortfolioPager::new(PortfolioOptions { batch_size: 20, limit: None, page: Some(3) });
    assert_eq!(single.next_step(), PageStep::Fetch { cursor: Some(40), count: 20 });
    single.on_page(20, Some(60));
    assert_eq!(single.next_step(), PageStep::Finished);

    let mut tiny = PortfolioPager::new(PortfolioOptions { batch_size: 1, limit: None, page: None });
    assert!(!tiny.on_timeout());
    tiny.on_page(1, None);
    assert_eq!(tiny.next_step(), PageStep::Finished);
}

fn expiry(name: &str, expires_at: u64, grace: u64) -> NameExpiry {
    NameExpiry { name: name.to_string(), owner: "GOWNER".to_string(), expires_at, grace_period_ends_at: grace }
}

#[test]
fn report_rows_classify_each_name_and_drop_costs_of_claimable_names() {
    let now = 1_000_000_000u64;
    let entries = vec![
        expiry("soon.xlm", now + 5 * DAY, now + 35 * DAY),
        expiry("gone.xlm", now - 60 * DAY, now - DAY),
        expiry("fine.xlm", now + 90 * DAY, now + 120 * DAY),
    ];
    let costs = vec![Some(100), Some(100), None];
    let attempts = vec![
        Some(AutoRenewOutcome::Simulated { fee_estimate: 7 }),
        Some(AutoRenewOutcome::Simulated { fee_estimate: 7 }),
        None,
    ];
    let rows = report_rows(&entries, now, 30, &costs, &attempts);
    assert_eq!(rows.len(), 3);
    assert_eq!(rows[0].0, Urgency::Warning);
    assert_eq!(rows[0].1.status, "warning");
    assert_eq!(rows[0].1.days_remaining, 5);
    assert_eq!(rows[0].1.renewal_cost, Some(100));
    assert_eq!(rows[0].1.renewal_currency.as_deref(), Some("XLM"));
    assert_eq!(
        rows[0].1.auto_renew_status.as_deref(),
        Some("dry-run: would renew, estimated fee 7 XLM")
    );
    assert_eq!(rows[1].0, Urgency::Claimable);
    assert_eq!(rows[1].1.days_remaining, -60);
    assert_eq!(rows[1].1.renewal_cost, None);
    assert_eq!(rows[1].1.renewal_currency, None);
    assert_eq!(rows[1].1.auto_renew_status, None);
    assert_eq!(rows[2].0, Urgency::Healthy);
    assert_eq!(rows[2].1.status, "ok");
    assert_eq!(rows[2].1.expires_at, (now + 90 * DAY) as i64);
}

#[test]
fn auto_renew_outcomes_read_as_report_texts() {
    let submitted = AutoRenewOutcome::Submitted { status: "SUCCESS".to_string(), tx_hash: "abc".to_string() };
    assert_eq!(auto_renew_texts(&submitted), ("SUCCESS".to_string(), Some("abc".to_string())));
    let failed = AutoRenewOutcome::SubmitFailed { error: "timeout".to_string() };
    assert_eq!(auto_renew_texts(&failed), ("failed: timeout".to_string(), None));
    let sim_failed = AutoRenewOutcome::SimulationFailed { error: "no fee".to_string() };
    assert_eq!(auto_renew_texts(&sim_failed), ("dry-run simulation failed: no fee".to_string(), None));
    let row = report_row(&expiry("late.xlm", 1_000, 5_000), 2_000, 30, None, &Some(submitted));
    assert_eq!(row.0, Urgency::GracePeriod);
    assert_eq!(row.1.auto_renew_status.as_deref(), Some("SUCCESS"));
    assert_eq!(row.1.auto_renew_tx_hash.as_deref(), Some("abc"));
}

#[test]
fn report_header_summary_and_empty_portfolio_texts() {
    assert_eq!(no_names_text("GOWNER"), "Renewal check for GOWNER:\n  [no names found]");
    assert_eq!(report_header("GOWNER", 30), "Renewal check for GOWNER (warn threshold: 30 day(s)):");
    let rows: Vec<RenewalCheckRecord> = vec![
        row("a.xlm", Urgency::Claimable, -10),
        row("b.xlm", Urgency::GracePeriod, -1),
        row("c.xlm", Urgency::Healthy, 80),
        row("d.xlm", Urgency::Healthy, 81),
    ]
    .into_iter()
    .map(|(_, r)| r)
    .collect();
    assert_eq!(report_summary(&rows), "\nSummary: 1 claimable, 1 grace period, 0 warning, 2 ok");
}
