# chat_backend

The verified core of a chat service with contacts and messages.

- `src/entity.rs`: the database rows, the rows to insert and the changes to apply.
- `src/form.rs`, `src/model.rs`: what clients submit and what the API hands out.
- `src/mutation.rs`: the decisions of each mutation, from what was read to what
  is written or which error is answered; each has an exact contract.
- `src/subscription.rs`: which message events reach a subscriber.
- `src/laws.rs`: properties across the operations (round trips, refusals of
  repeated changes, ownership, delivery of events).
- `src/text.rs`: decimal notation of counts.
- `app/`: the GraphQL layer (input and output objects, resolvers that perform
  the database work the decisions call for, password hashing, the stream of
  the subscription).
