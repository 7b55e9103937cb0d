//! The RPC surface of the node: which API groups it serves, in which order.
use vstd::prelude::*;
use crate::frontier::FilterPool;

verus! {

/// The Ethereum RPC settings of the node's runtime, for client `C` and
/// backend `BE`. It carries no data: its purpose is the choice of gas
/// estimation and storage override that comes with its type.
pub struct DefaultEthConfig<C, BE>(pub std::marker::PhantomData<(C, BE)>);

impl<C, BE> DefaultEthConfig<C, BE> {
    /// The (only) value of the type.
    pub fn new() -> (r: Self) {
        DefaultEthConfig(std::marker::PhantomData)
    }
}

/// Most log filters that the filter API stores at once.
pub const MAX_STORED_FILTERS: usize = 500;

/// A group of RPC methods that the node serves.
#[derive(Debug, Clone, Copy, PartialEq, Eq, Structural)]
pub enum RpcApi {
    /// Account nonces and extrinsic submission.
    System,
    /// Fee queries.
    TransactionPayment,
    /// Aleph-specific methods (justifications, validator addresses).
    AlephNode,
    /// The Ethereum API, with a development signer or with no signer.
    Eth { dev_signer: bool },
    /// Ethereum log filters.
    EthFilter { max_stored_filters: usize, max_past_logs: u32 },
    /// Ethereum subscriptions.
    EthPubSub,
    /// Ethereum network information; peer counts in hexadecimal or decimal.
    Net { peer_count_as_hex: bool },
    /// Web3 client information.
    Web3,
    /// Ethereum debugging methods.
    Debug,
}

/// The Ethereum API groups, in the order in which they are merged.
pub open spec fn spec_eth_rpc_apis(
    enable_dev_signer: bool,
    filter_pool_enabled: bool,
    max_past_logs: u32,
) -> Seq<RpcApi> {
    seq![RpcApi::Eth { dev_signer: enable_dev_signer }] + (if filter_pool_enabled {
        seq![
            RpcApi::EthFilter {
                max_stored_filters: MAX_STORED_FILTERS,
                max_past_logs: max_past_logs,
            },
        ]
    } else {
        Seq::empty()
    }) + seq![
        RpcApi::EthPubSub,
        RpcApi::Net { peer_count_as_hex: true },
        RpcApi::Web3,
        RpcApi::Debug,
    ]
}

/// The node's own API groups, merged before the Ethereum ones.
pub open spec fn spec_node_rpc_apis() -> Seq<RpcApi> {
    seq![RpcApi::System, RpcApi::TransactionPayment, RpcApi::AlephNode]
}

/// The Ethereum API groups: Eth (with the development signer when it is
/// enabled), the filter API where a filter pool exists, then subscriptions,
/// Net (peer counts in hexadecimal), Web3 and Debug.
pub fn eth_rpc_apis(enable_dev_signer: bool, filter_pool: &Option<FilterPool>, max_past_logs: u32) -> (r:
    Vec<RpcApi>)
    ensures
        r@ == spec_eth_rpc_apis(enable_dev_signer, filter_pool is Some, max_past_logs),
        r@.len() == (if filter_pool is Some {
            6int
        } else {
            5int
        }),
        r@[0] == (RpcApi::Eth { dev_signer: enable_dev_signer }),
        filter_pool is Some ==> r@[1] == (RpcApi::EthFilter {
            max_stored_filters: 500,
            max_past_logs: max_past_logs,
        }),
        r@.subrange(r@.len() - 4, r@.len() as int) == (seq![
            RpcApi::EthPubSub,
            RpcApi::Net { peer_count_as_hex: true },
            RpcApi::Web3,
            RpcApi::Debug,
        ]),
{
    proof {
        lemma_eth_rpc_apis_layout(enable_dev_signer, filter_pool is Some, max_past_logs);
    }
    let mut apis: Vec<RpcApi> = Vec::new();
    apis.push(RpcApi::Eth { dev_signer: enable_dev_signer });
    if filter_pool.is_some() {
        apis.push(RpcApi::EthFilter { max_stored_filters: MAX_STORED_FILTERS, max_past_logs });
    }
    apis.push(RpcApi::EthPubSub);
    apis.push(RpcApi::Net { peer_count_as_hex: true });
    apis.push(RpcApi::Web3);
    apis.push(RpcApi::Debug);
    assert(apis@ =~= spec_eth_rpc_apis(enable_dev_signer, filter_pool is Some, max_past_logs));
    apis
}

/// All API groups of a full node: System, TransactionPayment and AlephNode,
/// then the Ethereum ones.
pub fn full_rpc_apis(enable_dev_signer: bool, filter_pool: &Option<FilterPool>, max_past_logs: u32) -> (r:
    Vec<RpcApi>)
    ensures
        r@ == spec_node_rpc_apis() + spec_eth_rpc_apis(
            enable_dev_signer,
            filter_pool is Some,
            max_past_logs,
        ),
        r@.len() == (if filter_pool is Some {
            9int
        } else {
            8int
        }),
        r@.subrange(0, 4) == (seq![
            RpcApi::System,
            RpcApi::TransactionPayment,
            RpcApi::AlephNode,
            RpcApi::Eth { dev_signer: enable_dev_signer },
        ]),
        filter_pool is Some ==> r@[4] == (RpcApi::EthFilter {
            max_stored_filters: 500,
            max_past_logs: max_past_logs,
        }),
        r@.subrange(r@.len() - 4, r@.len() as int) == (seq![
            RpcApi::EthPubSub,
            RpcApi::Net { peer_count_as_hex: true },
            RpcApi::Web3,
            RpcApi::Debug,
        ]),
{
    proof {
        lemma_eth_rpc_apis_layout(enable_dev_signer, filter_pool is Some, max_past_logs);
    }
    let mut apis: Vec<RpcApi> = Vec::new();
    apis.push(RpcApi::System);
    apis.push(RpcApi::TransactionPayment);
    apis.push(RpcApi::AlephNode);
    let mut eth = eth_rpc_apis(enable_dev_signer, filter_pool, max_past_logs);
    apis.append(&mut eth);
    assert(apis@ =~= spec_node_rpc_apis() + spec_eth_rpc_apis(
        enable_dev_signer,
        filter_pool is Some,
        max_past_logs,
    ));
    apis
}

/// No API group is merged twice into the full node's RPC module, and the
/// filter API is served exactly when a filter pool exists.
pub proof fn lemma_full_rpc_apis_distinct(
    enable_dev_signer: bool,
    filter_pool_enabled: bool,
    max_past_logs: u32,
)
    ensures
        ({
            let apis = spec_node_rpc_apis() + spec_eth_rpc_apis(
                enable_dev_signer,
                filter_pool_enabled,
                max_past_logs,
            );
            &&& forall|i: int, j: int|
                0 <= i < j < apis.len() ==> #[trigger] apis[i] != #[trigger] apis[j]
            &&& (exists|i: int| 0 <= i < apis.len() && #[trigger] apis[i] is EthFilter)
                <==> filter_pool_enabled
        }),
{
    let apis = spec_node_rpc_apis() + spec_eth_rpc_apis(
        enable_dev_signer,
        filter_pool_enabled,
        max_past_logs,
    );
    if filter_pool_enabled {
        assert(apis =~= seq![
            RpcApi::System,
            RpcApi::TransactionPayment,
            RpcApi::AlephNode,
            RpcApi::Eth { dev_signer: enable_dev_signer },
            RpcApi::EthFilter { max_stored_filters: MAX_STORED_FILTERS, max_past_logs: max_past_logs },
            RpcApi::EthPubSub,
            RpcApi::Net { peer_count_as_hex: true },
            RpcApi::Web3,
            RpcApi::Debug,
        ]);
        assert(apis[4] is EthFilter);
    } else {
        assert(apis =~= seq![
            RpcApi::System,
            RpcApi::TransactionPayment,
            RpcApi::AlephNode,
            RpcApi::Eth { dev_signer: enable_dev_signer },
            RpcApi::EthPubSub,
            RpcApi::Net { peer_count_as_hex: true },
            RpcApi::Web3,
            RpcApi::Debug,
        ]);
    }
}

/// Whatever the dev-signer flag and the filter pool: the Ethereum groups start
/// with Eth (with a signer exactly when it is enabled), then the filter API
/// (500 stored filters) only where there is a filter pool, and always end
/// with subscriptions, Net (hex peer counts), Web3 and Debug.
pub proof fn lemma_eth_rpc_apis_layout(
    enable_dev_signer: bool,
    filter_pool_enabled: bool,
    max_past_logs: u32,
)
    ensures
        ({
            let apis = spec_eth_rpc_apis(enable_dev_signer, filter_pool_enabled, max_past_logs);
            let tail = seq![
                RpcApi::EthPubSub,
                RpcApi::Net { peer_count_as_hex: true },
                RpcApi::Web3,
                RpcApi::Debug,
            ];
            &&& apis.len() == (if filter_pool_enabled {
                6int
            } else {
                5int
            })
            &&& apis[0] == RpcApi::Eth { dev_signer: enable_dev_signer }
            &&& filter_pool_enabled ==> apis[1] == RpcApi::EthFilter {
                max_stored_filters: 500,
                max_past_logs: max_past_logs,
            }
            &&& apis.subrange(apis.len() - 4, apis.len() as int) == tail
            &&& apis.contains(RpcApi::Debug)
            &&& apis.contains(RpcApi::Web3)
            &&& apis.contains(RpcApi::EthPubSub)
        }),
{
    let apis = spec_eth_rpc_apis(enable_dev_signer, filter_pool_enabled, max_past_logs);
    let tail = seq![
        RpcApi::EthPubSub,
        RpcApi::Net { peer_count_as_hex: true },
        RpcApi::Web3,
        RpcApi::Debug,
    ];
    assert(apis.subrange(apis.len() - 4, apis.len() as int) =~= tail);
    assert(apis[apis.len() - 1] == RpcApi::Debug);
    assert(apis[apis.len() - 2] == RpcApi::Web3);
    assert(apis[apis.len() - 4] == RpcApi::EthPubSub);
}

} // verus!
