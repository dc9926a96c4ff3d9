# aip_oidc

Two endpoints of an OpenID Connect provider, with their rules proved in Verus:

- `POST /oauth/introspect`, RFC 7662 token introspection for confidential clients;
- `GET /oauth/avatar/{cid}`, profile avatars mirrored into an S3-compatible store.

`src/` is the verified library. It decides; it does no I/O. Each endpoint is a
chain of steps that say what to ask next and take the answer.

| module           | what it holds                                            |
|------------------|----------------------------------------------------------|
| `introspect`     | the steps of an introspection, from form to answer       |
| `oauth`          | what is read of requests, clients and tokens             |
| `reply`          | error replies                                            |
| `avatar_storage` | configuration, uploads, content types, picture addresses |
| `avatar`         | serving an avatar                                        |
| `laws`           | what holds of the library as a whole                     |
| `json`, `headers`, `store` | trusted contracts for `serde_json`, `http` and `object_store` |
| `text`, `timestamp` | prefixes, points in time                              |

`app/` holds the axum handlers, the environment and the traffic with the store.

The store is configured by `AVATAR_STORAGE_ENDPOINT`, `AVATAR_STORAGE_REGION`
(`garage` by default), `AVATAR_STORAGE_BUCKET`, `AVATAR_STORAGE_ACCESS_KEY` and
`AVATAR_STORAGE_SECRET_KEY`; without them there are no avatars. `EXTERNAL_BASE` is
the address that pictures are served under.
