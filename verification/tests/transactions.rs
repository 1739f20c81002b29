use block_metrics::block::Block;
use block_metrics::metrics::number_of_transactions;

fn block_of(count: usize) -> Block<u8> {
    Block { time: 1_700_000_000, txdata: vec![0u8; count] }
}

#[test]
fn block_10_with_three_transactions_counts_three() {
    let chain = |height: u64| -> Result<Block<&'static str>, String> {
        if height == 10 {
            Ok(Block { time: 500, txdata: vec!["coinbase", "first", "second"] })
        } else {
            Err(format!("no block at height {}", height))
        }
    };
    assert_eq!(number_of_transactions(chain(10)), Ok(3));
}

#[test]
fn an_empty_block_counts_zero() {
    assert_eq!(number_of_transactions::<u8, String>(Ok(block_of(0))), Ok(0));
}

#[test]
fn the_largest_count_that_fits_is_exact() {
    assert_eq!(number_of_transactions::<u8, String>(Ok(block_of(65_535))), Ok(65_535));
}

#[test]
fn a_count_beyond_sixteen_bits_wraps() {
    assert_eq!(number_of_transactions::<u8, String>(Ok(block_of(65_536))), Ok(0));
    assert_eq!(number_of_transactions::<u8, String>(Ok(block_of(65_537))), Ok(1));
    assert_eq!(number_of_transactions::<u8, String>(Ok(block_of(70_000))), Ok(4_464));
    assert_eq!(number_of_transactions::<u8, String>(Ok(block_of(200_000))), Ok(3_392));
}

#[test]
fn an_unreachable_node_fails_the_transaction_count() {
    let fetched: Result<Block<u8>, String> = Err(String::from("connection refused"));
    assert_eq!(number_of_transactions(fetched), Err(String::from("connection refused")));
}

#[test]
fn the_timestamp_does_not_matter_to_the_count() {
    let early: Result<Block<u8>, String> = Ok(Block { time: 0, txdata: vec![1, 2] });
    let late: Result<Block<u8>, String> = Ok(Block { time: u32::MAX, txdata: vec![3, 4] });
    assert_eq!(number_of_transactions(early), Ok(2));
    assert_eq!(number_of_transactions(late), Ok(2));
}
