use outage_reports::tally::total_of_listed;
use std::collections::HashMap;

fn votes() -> HashMap<u64, i64> {
    HashMap::from([(1, 600), (2, -200), (3, 30), (4, 0), (5, 601), (6, -201)])
}

#[test]
fn listed_scores_add_up() {
    assert_eq!(total_of_listed(&votes(), &vec![]), Some(0));
    assert_eq!(total_of_listed(&votes(), &vec![1]), Some(600));
    assert_eq!(total_of_listed(&votes(), &vec![1, 2, 3, 4]), Some(430));
    assert_eq!(total_of_listed(&votes(), &vec![2, 2, 2]), Some(-600));
}

#[test]
fn missing_score_stops_the_sum() {
    assert_eq!(total_of_listed(&votes(), &vec![1, 7]), None);
    assert_eq!(total_of_listed(&HashMap::new(), &vec![1]), None);
}

#[test]
fn impossible_score_stops_the_sum() {
    assert_eq!(total_of_listed(&votes(), &vec![1, 5]), None);
    assert_eq!(total_of_listed(&votes(), &vec![6, 1]), None);
}
