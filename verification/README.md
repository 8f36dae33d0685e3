# unetic-core

The decision logic of the Unetic OpenWrt control plane, verified with Verus.

`src/` holds the library: validation of Wi-Fi, WAN, DNS and dynamic-DNS settings; admission of
configuration requests (readiness, idempotency, revisions); the state changes when a change
starts, succeeds or fails; reconciliation and recovery after a restart; maintenance mode; the
published state and its drift, and the coalescing of its publication; observations of the
router; traffic rates; mesh pairing and the master's hand-over of Wi-Fi settings to extenders;
the dynamic-DNS watcher; identifiers; reading an API request's text and routing its method, and the API response envelope; the order of a WAN change's steps; registered devices and their port forwards; the difference of two JSON
values; subscriptions; and the router backend interface with an in-memory backend that models a
transactional configuration store (stage, apply, confirm, roll back). Every public function carries a
contract that Verus proves; laws that span several functions are public proof functions.

`app/` holds what touches the operating system: clocks, kernel identifiers and random bytes,
the `ping` command, locking for shared use, the answer to an API call, the loops that run a Wi-Fi or WAN change against the
backend and wait for the router, the state publisher and dynamic-DNS loops, and conversions
between `serde_json` values and the library's records.

`tests/` exercises the library on concrete values.
