use slack_rs::Block;

#[test]
fn blocks_hold_their_text() {
    let block = Block::Section { text: "テストメッセージ".to_string() };
    assert_eq!(block.clone(), block);
    match block {
        Block::Section { text } => assert_eq!(text, "テストメッセージ"),
        Block::Divider => panic!("a section is no divider"),
    }
}

#[test]
fn block_lists_keep_their_order() {
    let blocks = vec![
        Block::Section { text: "テスト1".to_string() },
        Block::Divider,
        Block::Section { text: "テスト2".to_string() },
    ];
    let copy: Vec<Block> = blocks.iter().map(|block| block.clone()).collect();
    assert_eq!(copy, blocks);
    assert_eq!(copy[1], Block::Divider);
    assert_ne!(copy[0], copy[2]);
}
