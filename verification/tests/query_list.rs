use win_event_log::prelude::{
    Comparison, Condition, EventFilter, Query, QueryItem, QueryItemType, QueryList,
};
use win_event_log::query_list::event_filter::computer::Computer;
use win_event_log::query_list::event_filter::data::{Name, Value};
use win_event_log::query_list::event_filter::event::Event;
use win_event_log::query_list::event_filter::level::Level;
use win_event_log::query_list::event_filter::provider::Provider;
use win_event_log::query_list::event_filter::time;
use win_event_log::query_list::event_filter::time::{TimeComparison, TimeCreated, TimeDiff};
use win_event_log::query_list::event_filter::user::User;
use win_event_log::query_list::event_filter::{EventDataFilter, SystemFilter};
use win_event_log::query_list::selector::Selector;
use win_event_log::query_list::suppressor::Suppressor;

#[test]
fn complex_query() {
    let conditions = vec![
        Condition::filter(EventFilter::event(4624)),
        Condition::filter(EventFilter::event(1102)),
        Condition::filter(EventFilter::time(
            "86400000",
            time::TimeComparison::GreaterThanOrEqual,
            time::TimeDiff::InLast,
        )),
    ];

    let ql = QueryList::new()
        .with_query(
            Query::new()
                .item(
                    QueryItem::selector("Security")
                        .system_conditions(Condition::and(vec![
                            Condition::or(conditions),
                            Condition::filter(EventFilter::time(
                                "86400000",
                                time::TimeComparison::GreaterThanOrEqual,
                                time::TimeDiff::InLast,
                            )),
                        ]))
                        .build(),
                )
                .item(
                    QueryItem::suppressor("Security")
                        .system_conditions(Condition::filter(EventFilter::event(4624)))
                        .event_conditions(Condition::filter(EventFilter::event_data(
                            "TargetUserName",
                            "SYSTEM",
                        )))
                        .build(),
                )
                .query(),
        )
        .build();
    println!("{}", ql.to_string());
    assert_eq!(
        ql.to_string(),
        r#"<QueryList>
<Query Id="0">
<Select Path="Security">
*[System[(((EventID = 4624) or (EventID = 1102) or (TimeCreated[timediff(@SystemTime) &gt;= 86400000])) and (TimeCreated[timediff(@SystemTime) &gt;= 86400000]))]]
</Select>
<Suppress Path="Security">
*[System[(EventID = 4624)]]
and
*[EventData[((Data[@Name = 'TargetUserName'] and Data = 'SYSTEM'))]]
</Suppress>
</Query>
</QueryList>"#
    );
}

#[test]
fn time_created() {
    let conditions = vec![
        Condition::filter(EventFilter::level(1, Comparison::GreaterThan)),
        Condition::filter(EventFilter::time(
            "2020-12-10T16:00:57.000Z",
            time::TimeComparison::GreaterThanOrEqual,
            time::TimeDiff::InRange,
        )),
        Condition::filter(EventFilter::time(
            "2020-12-11T16:00:57.000Z",
            time::TimeComparison::LessThanOrEqual,
            time::TimeDiff::InRange,
        )),
    ];

    let ql = QueryList::new()
        .with_query(
            Query::new()
                .item(
                    QueryItem::selector("Security")
                        .system_conditions(Condition::and(conditions))
                        .build(),
                )
                .query(),
        )
        .build();

    println!("{}", ql.to_string());
    assert_eq!(
        ql.to_string(),
        r#"<QueryList>
<Query Id="0">
<Select Path="Security">
*[System[((Level > 1) and (TimeCreated[@SystemTime &gt;= '2020-12-10T16:00:57.000Z']) and (TimeCreated[@SystemTime &lt;= '2020-12-11T16:00:57.000Z']))]]
</Select>
</Query>
</QueryList>"#
    );
}

#[test]
fn simple_query() {
    let list = QueryList::new()
        .with_query(
            Query::new()
                .item(
                    QueryItem::new(QueryItemType::Selector, "Application".to_owned())
                        .system_conditions(Condition::filter(EventFilter::level(
                            1,
                            Comparison::Equal,
                        )))
                        .build(),
                )
                .query(),
        )
        .build();

    assert_eq!(
        &list.to_string(),
        r#"<QueryList>
<Query Id="0">
<Select Path="Application">
*[System[(Level = 1)]]
</Select>
</Query>
</QueryList>"#
    );
}

#[test]
fn simple_or_query() {
    let conditions = vec![
        Condition::filter(EventFilter::level(1, Comparison::Equal)),
        Condition::filter(EventFilter::level(4, Comparison::GreaterThanOrEqual)),
    ];
    let list = QueryList::new()
        .with_query(
            Query::new()
                .item(
                    QueryItem::new(QueryItemType::Selector, "Application".to_owned())
                        .system_conditions(Condition::or(conditions))
                        .build(),
                )
                .query(),
        )
        .build();
    assert_eq!(
        &list.to_string(),
        r#"<QueryList>
<Query Id="0">
<Select Path="Application">
*[System[((Level = 1) or (Level >= 4))]]
</Select>
</Query>
</QueryList>"#
    );
}

#[test]
fn system_and_event_query() {
    let system_conditions = vec![
        Condition::filter(EventFilter::level(0, Comparison::Equal)),
        Condition::filter(EventFilter::level(4, Comparison::GreaterThanOrEqual)),
    ];
    let event_conditions = Condition::filter(EventFilter::event_data(
        "TargetUserName".to_owned(),
        "SYSTEM".to_owned(),
    ));
    let list = QueryList::new()
        .with_query(
            Query::new()
                .item(
                    QueryItem::new(QueryItemType::Selector, "Security".to_owned())
                        .system_conditions(Condition::or(system_conditions))
                        .event_conditions(event_conditions)
                        .build(),
                )
                .query(),
        )
        .build();

    assert_eq!(
        &list.to_string(),
        r#"<QueryList>
<Query Id="0">
<Select Path="Security">
*[System[((Level = 0) or (Level >= 4))]]
and
*[EventData[((Data[@Name = 'TargetUserName'] and Data = 'SYSTEM'))]]
</Select>
</Query>
</QueryList>"#
    );
}

#[test]
fn query_item_simple_level() {
    let selector = QueryItem::new(QueryItemType::Selector, "Application")
        .system_conditions(Condition::filter(EventFilter::level(1, Comparison::Equal)))
        .build();
    assert_eq!(
        r#"<Select Path="Application">
*[System[(Level = 1)]]
</Select>"#,
        &selector.to_string()
    );
}

#[test]
fn selector_simple_level() {
    let selector = Selector::new("Application".to_owned())
        .system_conditions(Condition::filter(EventFilter::level(1, Comparison::Equal)))
        .build();
    assert_eq!(
        r#"<Select Path="Application">
*[System[(Level = 1)]]
</Select>"#,
        &selector.to_string()
    );
}

#[test]
fn empty_list_has_no_query() {
    assert_eq!(QueryList::new().to_string(), "<QueryList>\n</QueryList>");
    assert_eq!(QueryList::default().to_string(), "<QueryList>\n</QueryList>");
    assert_eq!(Query::new().to_string(), "");
    assert_eq!(Query::default().to_string(), "");
}

#[test]
fn queries_are_numbered_from_zero() {
    let mut list = QueryList::new();
    for _ in 0..11 {
        list.with_query(Query::new().item(QueryItem::selector("A")).query());
    }
    let text = list.build().to_string();
    assert!(text.starts_with("<QueryList>\n<Query Id=\"0\">\n<Select Path=\"A\">\n\n</Select>\n</Query>\n<Query Id=\"1\">"));
    assert!(text.contains("<Query Id=\"9\">"));
    assert!(text.ends_with("<Query Id=\"10\">\n<Select Path=\"A\">\n\n</Select>\n</Query>\n</QueryList>"));
}

#[test]
fn item_without_conditions() {
    assert_eq!(
        QueryItem::suppressor("System").to_string(),
        "<Suppress Path=\"System\">\n\n</Suppress>"
    );
    assert_eq!(
        QueryItem::selector("System".to_owned())
            .event_conditions(Condition::filter(EventFilter::event(7)))
            .to_string(),
        "<Select Path=\"System\">\n*[EventData[(EventID = 7)]]\n</Select>"
    );
}

#[test]
fn suppressor_has_no_conditions() {
    assert_eq!(
        Suppressor::new("Security".to_owned()).to_string(),
        "<Suppress Path=\"Security\">\n</Suppress>"
    );
}

#[test]
fn leaf_filters() {
    assert_eq!(Computer::new("host").to_string(), "System[@Computer = 'host']");
    assert_eq!(Provider::new("svc".to_owned()).to_string(), "Provider[@Name = 'svc']");
    assert_eq!(User::new("S-1-5-18".to_owned()).to_string(), "Security[@UserID = 'S-1-5-18']");
    assert_eq!(Name::new("n").to_string(), "Data[@Name = 'n']");
    assert_eq!(Value::new("v").to_string(), "Data = 'v'");
    assert_eq!(Event::new(0).to_string(), "EventID = 0");
    assert_eq!(Event::new(4294967295).to_string(), "EventID = 4294967295");
    assert_eq!(Level::new(10, Comparison::LessThan).to_string(), "Level < 10");
    assert_eq!(Level::new(3, Comparison::LessThanOrEqual).to_string(), "Level <= 3");
    assert_eq!(EventDataFilter::new("a", "b").to_string(), "(Data[@Name = 'a'] and Data = 'b')");
    assert_eq!(EventFilter::computer("pc").to_string(), "System[@Computer = 'pc']");
    assert_eq!(EventFilter::provider("p").to_string(), "Provider[@Name = 'p']");
    assert_eq!(
        SystemFilter::EventID(Event::new(12)).to_string(),
        "EventID = 12"
    );
}

#[test]
fn time_comparisons() {
    assert_eq!(
        TimeCreated::new("5", TimeComparison::Equal, TimeDiff::InLast).to_string(),
        "TimeCreated[timediff(@SystemTime) = 5]"
    );
    assert_eq!(
        TimeCreated::new("5", TimeComparison::GreaterThan, TimeDiff::InLast).to_string(),
        "TimeCreated[timediff(@SystemTime) &gt; 5]"
    );
    assert_eq!(
        TimeCreated::new("t", TimeComparison::LessThan, TimeDiff::InRange).to_string(),
        "TimeCreated[@SystemTime &lt; 't']"
    );
}

#[test]
fn conditions_nest() {
    assert_eq!(Condition::or(vec![]).to_string(), "()");
    assert_eq!(
        Condition::and(vec![Condition::filter(EventFilter::event(1))]).to_string(),
        "((EventID = 1))"
    );
    let tree = Condition::or(vec![
        Condition::and(vec![
            Condition::filter(EventFilter::event(1)),
            Condition::filter(EventFilter::event(2)),
        ]),
        Condition::filter(EventFilter::event(3)),
    ]);
    assert_eq!(tree.to_string(), "(((EventID = 1) and (EventID = 2)) or (EventID = 3))");
    assert_eq!(tree.clone().to_string(), tree.to_string());
}

#[test]
fn copies_keep_the_text() {
    let mut item = QueryItem::selector("Application");
    item.system_conditions(Condition::filter(EventFilter::level(2, Comparison::GreaterThan)));
    let mut query = Query::new();
    query.item(item.clone());
    let mut list = QueryList::new();
    list.with_query(query.clone());
    assert_eq!(item.build().to_string(), item.to_string());
    assert_eq!(query.query().to_string(), query.to_string());
    assert_eq!(list.build().to_string(), list.to_string());
    assert_eq!(list.clone().to_string(), list.to_string());
}
