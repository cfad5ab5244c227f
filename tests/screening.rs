use screener::batch::{Action, Batch};
use screener::company::{Company, FetchError};
use screener::evaluate::{evaluate, scaled_net_debt, verdict, Policy, Verdict};
use screener::symbols::extract_keys;

fn summary_body(market_cap: i64) -> String {
    format!(
        "{{\"quoteSummary\":{{\"result\":[{{\"summaryDetail\":{{\"marketCap\":{{\"raw\":{}}}}}}}]}}}}",
        market_cap
    )
}

fn financial_body(total_debt: i64, total_cash: i64, free_cash_flow: i64) -> String {
    format!(
        "{{\"quoteSummary\":{{\"result\":[{{\"financialData\":{{\"totalDebt\":{{\"raw\":{}}},\"totalCash\":{{\"raw\":{}}},\"freeCashflow\":{{\"raw\":{}}}}}}}]}}}}",
        total_debt, total_cash, free_cash_flow
    )
}

fn company(market_cap: i64, total_debt: i64, free_cash: i64, free_cash_flow: i64) -> Company {
    Company { name: "X".to_string(), market_cap, total_debt, free_cash, free_cash_flow }
}

#[test]
fn keys_are_read_from_quoted_pairs() {
    let text = "{'AAPL': 'Apple Inc.', 'MSFT': 'Microsoft', 'BRK-B': 'Berkshire'}".to_string();
    assert_eq!(extract_keys(&text), vec!["AAPL", "MSFT", "BRK-B"]);
}

#[test]
fn keys_of_single_entry_and_empty_text() {
    assert_eq!(extract_keys(&"{'IBM': 'IBM'}".to_string()), vec!["IBM"]);
    assert_eq!(extract_keys(&"".to_string()), vec![""]);
    assert_eq!(extract_keys(&"'A', 'B".to_string()), vec!["A", "B"]);
}

#[test]
fn urls_name_the_symbol_and_module() {
    assert_eq!(
        Company::summary_url("AAPL"),
        "https://query2.finance.yahoo.com/v6/finance/quoteSummary/AAPL?modules=summaryDetail"
    );
    assert_eq!(
        Company::financial_url("AAPL"),
        "https://query2.finance.yahoo.com/v6/finance/quoteSummary/AAPL?modules=financialData"
    );
}

#[test]
fn figures_are_read_from_both_documents() {
    let c = Company::from_responses(
        "A",
        &summary_body(500_000_000),
        &financial_body(100_000_000, 50_000_000, 40_000_000),
    )
    .unwrap();
    assert_eq!(c.name, "A");
    assert_eq!(c.market_cap, 500_000_000);
    assert_eq!(c.total_debt, 100_000_000);
    assert_eq!(c.free_cash, 50_000_000);
    assert_eq!(c.free_cash_flow, 40_000_000);
}

#[test]
fn missing_figures_are_named() {
    let fin = financial_body(1, 2, 3);
    let r = Company::from_responses("A", "{\"quoteSummary\":{}}", &fin);
    assert!(matches!(r, Err(FetchError::MarketCapParseError)));
    let r = Company::from_responses("A", &summary_body(5), "{}");
    assert!(matches!(r, Err(FetchError::TotalDebtParseError)));
    let no_cash = "{\"quoteSummary\":{\"result\":[{\"financialData\":{\"totalDebt\":{\"raw\":1}}}]}}";
    let r = Company::from_responses("A", &summary_body(5), no_cash);
    assert!(matches!(r, Err(FetchError::FreeCashParseError)));
    let text_flow = "{\"quoteSummary\":{\"result\":[{\"financialData\":{\"totalDebt\":{\"raw\":1},\"totalCash\":{\"raw\":2},\"freeCashflow\":{\"raw\":\"3\"}}}]}}";
    let r = Company::from_responses("A", &summary_body(5), text_flow);
    assert!(matches!(r, Err(FetchError::FreeCashFlowParseError)));
}

#[test]
fn malformed_bodies_are_response_errors() {
    let r = Company::from_responses("A", "not json", &financial_body(1, 2, 3));
    assert!(matches!(r, Err(FetchError::ResponseError(_))));
    let r = Company::from_responses("A", &summary_body(5), "{\"quoteSummary\":");
    assert!(matches!(r, Err(FetchError::ResponseError(_))));
}

#[test]
fn from_fields_fails_on_first_missing() {
    assert!(matches!(
        Company::from_fields("A", None, None, None, None),
        Err(FetchError::MarketCapParseError)
    ));
    assert!(matches!(
        Company::from_fields("A", Some(1), Some(2), None, None),
        Err(FetchError::FreeCashParseError)
    ));
    let c = Company::from_fields("A", Some(1), Some(2), Some(3), Some(-4)).unwrap();
    assert_eq!((c.market_cap, c.total_debt, c.free_cash, c.free_cash_flow), (1, 2, 3, -4));
}

#[test]
fn net_debt_weighs_market_cap_at_one_point_four_five() {
    let p = Policy::standard();
    let c = company(500_000_000, 100_000_000, 50_000_000, 40_000_000);
    assert_eq!(scaled_net_debt(&c, &p), 77_500_000_000);
    let c = company(i64::MAX, i64::MAX, i64::MIN, 1);
    assert_eq!(
        scaled_net_debt(&c, &p),
        100 * (i64::MAX as i128 - i64::MIN as i128) + 145 * i64::MAX as i128
    );
}

#[test]
fn zero_free_cash_flow_is_rejected() {
    let c = company(500_000_000, 100_000_000, 50_000_000, 0);
    assert!(!evaluate(&c, &Policy::standard()));
    assert!(!evaluate(&c, &Policy::cash_flow_only()));
    assert!(matches!(verdict(Ok(c), &Policy::standard()), Verdict::Rejected));
}

#[test]
fn market_cap_bounds_are_inclusive() {
    let p = Policy::standard();
    assert!(evaluate(&company(100_000_000, 0, 0, 1), &p));
    assert!(!evaluate(&company(99_999_999, 0, 0, 1), &p));
    assert!(evaluate(&company(1_000_000_000, 0, 600_000_000, 1), &p));
    assert!(!evaluate(&company(1_000_000_001, 0, 600_000_000, 1), &p));
}

#[test]
fn net_debt_bound_is_inclusive() {
    let p = Policy::standard();
    // 100 * (debt - cash) + 145 * cap == 100 * 1_000_000_000
    assert!(evaluate(&company(200_000_000, 710_000_000, 0, 1), &p));
    assert!(!evaluate(&company(200_000_000, 710_000_001, 0, 1), &p));
}

#[test]
fn evaluation_is_deterministic() {
    let p = Policy::standard();
    let a = company(500_000_000, 100_000_000, 50_000_000, 40_000_000);
    let b = Company { name: "Other".to_string(), ..company(500_000_000, 100_000_000, 50_000_000, 40_000_000) };
    for _ in 0..3 {
        assert_eq!(evaluate(&a, &p), evaluate(&b, &p));
        assert!(evaluate(&a, &p));
    }
}

#[test]
fn cash_flow_only_policy_needs_positive_flow() {
    let p = Policy::cash_flow_only();
    assert!(evaluate(&company(1, i64::MAX, 0, 1), &p));
    assert!(!evaluate(&company(1, 0, 0, -1), &p));
}

#[test]
fn zero_limit_is_refused() {
    assert!(Batch::new(5, 0).is_none());
    let b = Batch::new(0, 1).unwrap();
    assert_eq!(b.next_action(), Action::Finish);
    assert_eq!(b.percent_done(), 100);
}

#[test]
fn cap_holds_and_no_item_is_lost() {
    let total = 25usize;
    let limit = 4usize;
    let mut b = Batch::new(total, limit).unwrap();
    let mut max_in_flight = 0usize;
    let mut verdicts = 0usize;
    let mut step = 0usize;
    loop {
        match b.next_action() {
            Action::Dispatch => {
                b.dispatch();
                max_in_flight = max_in_flight.max(b.in_flight());
                assert!(b.in_flight() <= limit);
            }
            Action::Await => {
                let v = match step % 3 {
                    0 => Verdict::Accepted(company(1, 1, 1, 1)),
                    1 => Verdict::Rejected,
                    _ => Verdict::Failed(FetchError::MarketCapParseError),
                };
                step += 1;
                let forward = b.record(&v);
                verdicts += 1;
                assert_eq!(forward, matches!(v, Verdict::Accepted(_)));
                assert_eq!(b.completed, verdicts);
            }
            Action::Finish => break,
        }
    }
    assert_eq!(max_in_flight, limit);
    assert_eq!(verdicts, total);
    assert_eq!((b.dispatched, b.completed), (total, total));
    assert_eq!((b.accepted, b.rejected, b.failed), (9, 8, 8));
    assert_eq!(b.percent_done(), 100);
}

#[test]
fn progress_is_whole_percent_rounded_down() {
    let mut b = Batch::new(3, 2).unwrap();
    b.dispatch();
    b.record(&Verdict::Rejected);
    assert_eq!(b.percent_done(), 33);
    b.dispatch();
    b.record(&Verdict::Rejected);
    assert_eq!(b.percent_done(), 66);
}

#[test]
fn three_symbols_end_to_end() {
    let p = Policy::standard();
    let mut b = Batch::new(3, 2).unwrap();
    let mut rows: Vec<String> = Vec::new();
    let transport = reqwest::Client::new().get("not a url").build().unwrap_err();
    let outcomes = vec![
        Company::from_responses(
            "A",
            &summary_body(500_000_000),
            &financial_body(100_000_000, 50_000_000, 40_000_000),
        ),
        Err(FetchError::RequestError(transport)),
        Company::from_responses(
            "C",
            &summary_body(500_000_000),
            &financial_body(100_000_000, 50_000_000, -5),
        ),
    ];
    let mut kinds = Vec::new();
    let mut pending = outcomes.into_iter();
    loop {
        match b.next_action() {
            Action::Dispatch => b.dispatch(),
            Action::Await => {
                let v = verdict(pending.next().unwrap(), &p);
                kinds.push(match &v {
                    Verdict::Accepted(_) => 'A',
                    Verdict::Rejected => 'R',
                    Verdict::Failed(_) => 'F',
                });
                if let Verdict::Accepted(c) = &v {
                    assert_eq!(scaled_net_debt(c, &p), 775_000_000 * 100);
                    rows.push(c.name.clone());
                }
                b.record(&v);
            }
            Action::Finish => break,
        }
    }
    assert_eq!(kinds, vec!['A', 'F', 'R']);
    assert_eq!(rows, vec!["A"]);
    assert_eq!(b.completed, 3);
}
