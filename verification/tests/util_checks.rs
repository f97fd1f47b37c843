use workpool::poll::RoundRobinPoll;
use workpool::util::add;
use workpool::util::apply_operation;
use workpool::util::calculate;
use workpool::util::create_adder;
use workpool::util::default_limit;
use workpool::util::default_page;
use workpool::util::early_return;
use workpool::util::largest;
use workpool::util::plus_one;
use workpool::util::process_data;

#[test]
fn plus_one_increments() {
    assert_eq!(plus_one(5), 6);
}

#[test]
fn early_return_doubles_only_above_five() {
    assert_eq!(early_return(10), 20);
    assert_eq!(early_return(3), 3);
}

#[test]
fn calculate_gives_sum_and_product() {
    assert_eq!(calculate(3, 4), (7, 12));
}

#[test]
fn apply_operation_applies() {
    assert_eq!(apply_operation(5, 3, add), 8);
}

#[test]
fn created_adder_adds_its_offset() {
    let add_ten = create_adder(10);
    assert_eq!(add_ten.apply(5), 15);
    assert_eq!(add_ten.apply(-3), 7);
}

#[test]
fn largest_of_numbers_and_chars() {
    assert_eq!(*largest(&[1, 5, 3, 2]), 5);
    assert_eq!(*largest(&['a', 'z', 'm', 'b']), 'z');
}

#[test]
fn process_data_appends_marker() {
    assert_eq!(process_data(vec![1, 2, 3]), vec![1, 2, 3, 4]);
}

#[test]
fn paging_defaults() {
    assert_eq!(default_page(), 1);
    assert_eq!(default_limit(), 20);
}

#[test]
fn round_robin_skips_closed_receivers() {
    let mut poll = RoundRobinPoll::new(3);
    assert_eq!(poll.current(), Some(0));
    poll.advance();
    assert_eq!(poll.current(), Some(1));
    poll.mark_closed(1);
    assert_eq!(poll.current(), Some(2));
    poll.mark_closed(2);
    poll.mark_closed(0);
    assert_eq!(poll.current(), None);
    assert_eq!(poll.live_count(), 0);
}
