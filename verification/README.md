# chicken_farm

The rules of a small on-chain chicken farming game, verified with Verus.

- `src/chicken_proxy.rs`: chicken stats, feeding, breeding, culling,
  hatching and stat updates.
- `src/chicken_history.rs`: what holds across any sequence of chicken
  instructions (breeds are spent only by breeding, death is final) and the
  laws of a single meal.
- `src/player_proxy.rs`: player details and barns, with the law that every
  barn held was bought.
- `src/store_proxy.rs`: listing, delisting and the charges of a purchase.
- `src/cpi.rs`: the token-program calls the handlers ask for, and the
  system-program transfer instruction built through `anchor-lang`.
- `app/`: the Anchor programs that load accounts, read the clock, perform
  the calls and store the results.
