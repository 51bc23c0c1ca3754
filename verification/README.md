# near_fetch

A client library for sending transactions to the NEAR chain, with retries
under exponential back-off and a local cache of access-key nonces.

- `src/` is the library, whose functions carry proved contracts: the nonce cache (`nonce`), the
  retry schedules and the retry loop's decisions (`retry`), the transaction
  builders (`ops`), the reading of transaction outcomes and RPC answers
  (`outcome`, `query`, `status`), the key-rotating signer (`signer`), gas and
  token units (`units`), plain models of the chain's values (`types`) and the
  errors (`error`).
- `app/` connects the library to the network: the JSON-RPC client, signing,
  and the loops that send, sleep, retry and poll.
- `tests/` exercises the library on concrete values.

The nonce cache keys access keys by a pair of strings (account id and public
key). It keeps them in two lists, searched in order, under an invariant that no
key occurs twice: the map specifications that the verifier offers for the
standard hash map prove lookups only for keys of simpler types.
