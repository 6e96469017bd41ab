use solana_bootcamp::explorer::get_signature_explorer_url;

#[test]
fn explorer_url_wraps_the_signature() {
    let url = get_signature_explorer_url(
        "5iiuLMQ1DNq9menSQKtFRSrGpRU5GJYLrd4QpnsgASCDb1xyyMsTF3YdRxyqWh4f51x1JiCJyw7WjFAPpbd3dnz",
    );
    assert_eq!(
        url,
        "https://explorer.solana.com/tx/5iiuLMQ1DNq9menSQKtFRSrGpRU5GJYLrd4QpnsgASCDb1xyyMsTF3YdRxyqWh4f51x1JiCJyw7WjFAPpbd3dnz?cluster=devnet"
    );
}

#[test]
fn explorer_url_of_an_empty_signature() {
    assert_eq!(
        get_signature_explorer_url(""),
        "https://explorer.solana.com/tx/?cluster=devnet"
    );
}
